//! Subscription intake and confirmation: validated subscribers enter in
//! `PendingConfirmation` with a mailed token link, and following the link
//! flips their row to `Confirmed`. The store is the narrow gateway over the
//! subscription and token tables; the confirmation email itself is assembled
//! here and performed by the transport.

use crate::domain::{NewSubscriber, SubscriberEmail};
use crate::email_client::{EmailClient, SendEmailRequest};
use crate::http::{ok_response, HttpResponse};
use crate::SubscriberStatus;
use rand::Rng;
use vstd::prelude::*;
use vstd::string::StringExecFns;

verus! {

/// Whether `c` is an ASCII letter or digit.
pub open spec fn is_alphanumeric_char(c: char) -> bool {
    (97 <= c as u32 && c as u32 <= 122) || (65 <= c as u32 && c as u32 <= 90) || (48 <= c as u32
        && c as u32 <= 57)
}

/// Relies on rand's `Alphanumeric` distribution: every sample is an ASCII
/// letter or digit, handed back as a one-character string. Nothing more is
/// known of a random draw.
#[verifier::external_body]
fn sample_alphanumeric() -> (r: String)
    ensures
        r@.len() == 1,
        is_alphanumeric_char(r@[0]),
{
    char::from(rand::thread_rng().sample(rand::distributions::Alphanumeric)).to_string()
}

/// Relies on `uuid::Uuid::new_v4`: a fresh random identifier, read out as
/// its 128-bit value. Nothing is known of a random draw.
#[verifier::external_body]
fn generate_subscriber_id() -> (r: u128) {
    uuid::Uuid::new_v4().as_u128()
}

/// A fresh 25-character alphanumeric confirmation token.
pub fn generate_subscription_token() -> (r: String)
    ensures
        r@.len() == 25,
        forall|i: int| 0 <= i < r@.len() ==> is_alphanumeric_char(r@[i]),
{
    let mut token = String::new();
    let mut i: usize = 0;
    while i < 25
        invariant
            i <= 25,
            token@.len() == i,
            forall|k: int| 0 <= k < i ==> is_alphanumeric_char(token@[k]),
        decreases 25 - i,
    {
        let c = sample_alphanumeric();
        token.append(c.as_str());
        i = i + 1;
    }
    token
}

/// One stored subscription row.
pub struct SubscriberRow {
    pub id: u128,
    pub email: String,
    pub name: String,
    pub status: SubscriberStatus,
}

/// The abstract value of a subscription row.
pub struct SubscriberRowView {
    pub id: u128,
    pub email: Seq<char>,
    pub name: Seq<char>,
    pub status: SubscriberStatus,
}

impl View for SubscriberRow {
    type V = SubscriberRowView;

    open spec fn view(&self) -> SubscriberRowView {
        SubscriberRowView { id: self.id, email: self.email@, name: self.name@, status: self.status }
    }
}

impl DeepView for SubscriberRow {
    type V = SubscriberRowView;

    open spec fn deep_view(&self) -> SubscriberRowView {
        self.view()
    }
}

/// One stored confirmation token, pointing at the subscriber it confirms.
pub struct TokenRow {
    pub subscription_token: String,
    pub subscriber_id: u128,
}

/// The abstract value of a token row.
pub struct TokenRowView {
    pub token: Seq<char>,
    pub subscriber_id: u128,
}

impl View for TokenRow {
    type V = TokenRowView;

    open spec fn view(&self) -> TokenRowView {
        TokenRowView { token: self.subscription_token@, subscriber_id: self.subscriber_id }
    }
}

impl DeepView for TokenRow {
    type V = TokenRowView;

    open spec fn deep_view(&self) -> TokenRowView {
        self.view()
    }
}

/// The subscriber the first matching token points at, if any.
pub open spec fn token_lookup(tokens: Seq<TokenRowView>, token: Seq<char>) -> Option<u128>
    decreases tokens.len(),
{
    if tokens.len() == 0 {
        None
    } else if tokens[0].token == token {
        Some(tokens[0].subscriber_id)
    } else {
        token_lookup(tokens.skip(1), token)
    }
}

/// The subscription-store gateway: subscription rows, confirmation tokens,
/// and whether the backing store can currently be reached.
pub struct SubscriptionStore {
    pub rows: Vec<SubscriberRow>,
    pub tokens: Vec<TokenRow>,
    pub available: bool,
}

/// Why a subscription attempt failed.
#[derive(Debug)]
pub enum SubscribeError {
    ValidationError(String),
    UnexpectedError,
}

impl SubscribeError {
    /// The HTTP status this failure maps to.
    pub fn status_code(&self) -> (r: u16)
        ensures
            (self is ValidationError) ==> r == 400,
            (self is UnexpectedError) ==> r == 500,
    {
        match self {
            SubscribeError::ValidationError(_) => 400,
            SubscribeError::UnexpectedError => 500,
        }
    }
}

/// Why a confirmation attempt failed.
#[derive(Debug)]
pub enum ConfirmSubscriberError {
    InvalidTokenError,
    UnexpectedError,
}

impl ConfirmSubscriberError {
    /// The HTTP status this failure maps to.
    pub fn status_code(&self) -> (r: u16)
        ensures
            (self is InvalidTokenError) ==> r == 401,
            (self is UnexpectedError) ==> r == 500,
    {
        match self {
            ConfirmSubscriberError::InvalidTokenError => 401,
            ConfirmSubscriberError::UnexpectedError => 500,
        }
    }
}

/// The confirmation link's query parameters.
pub struct Parameters {
    pub subscription_token: String,
}

impl SubscriptionStore {
    /// An empty, reachable store.
    pub fn new() -> (r: SubscriptionStore)
        ensures
            r.rows@.len() == 0,
            r.tokens@.len() == 0,
            r.available,
    {
        SubscriptionStore { rows: Vec::new(), tokens: Vec::new(), available: true }
    }

    /// Stores a row as it stands — the seam the backing table fills the
    /// gateway through, so stored data may well be older than the current
    /// validation rules.
    pub fn add_row(&mut self, row: SubscriberRow)
        ensures
            final(self).rows.deep_view() == old(self).rows.deep_view().push(row@),
            final(self).tokens@ == old(self).tokens@,
            final(self).available == old(self).available,
    {
        let ghost before = self.rows.deep_view();
        self.rows.push(row);
        proof {
            assert(self.rows.deep_view() =~~= before.push(self.rows@.last()@));
        }
    }

    /// Stores a validated subscriber as pending confirmation, under a fresh
    /// identifier.
    pub fn insert_subscriber(&mut self, new_subscriber: &NewSubscriber) -> (r: Result<
        u128,
        SubscribeError,
    >)
        ensures
            final(self).available == old(self).available,
            final(self).tokens@ == old(self).tokens@,
            !old(self).available ==> (r matches Err(e) && e is UnexpectedError) && final(self).rows.deep_view() == old(self).rows.deep_view(),
            old(self).available ==> (r matches Ok(id) && final(self).rows.deep_view() == old(self).rows.deep_view().push(
                SubscriberRowView {
                    id,
                    email: new_subscriber.email@,
                    name: new_subscriber.name@,
                    status: SubscriberStatus::PendingConfirmation,
                },
            )),
    {
        if !self.available {
            return Err(SubscribeError::UnexpectedError);
        }
        let ghost before = self.rows.deep_view();
        let id = generate_subscriber_id();
        let row = SubscriberRow {
            id,
            email: new_subscriber.email.as_ref().to_owned(),
            name: new_subscriber.name.as_ref().to_owned(),
            status: SubscriberStatus::PendingConfirmation,
        };
        self.rows.push(row);
        proof {
            assert(self.rows.deep_view() =~~= before.push(self.rows@.last()@));
        }
        Ok(id)
    }

    /// Stores a confirmation token for a pending subscriber.
    pub fn store_token(&mut self, subscriber_id: u128, subscription_token: &String) -> (r: Result<
        (),
        SubscribeError,
    >)
        ensures
            final(self).available == old(self).available,
            final(self).rows@ == old(self).rows@,
            !old(self).available ==> (r matches Err(e) && e is UnexpectedError) && final(self).tokens.deep_view() == old(self).tokens.deep_view(),
            old(self).available ==> (r is Ok) && final(self).tokens.deep_view() == old(self).tokens.deep_view().push(
                TokenRowView { token: subscription_token@, subscriber_id },
            ),
    {
        if !self.available {
            return Err(SubscribeError::UnexpectedError);
        }
        let ghost before = self.tokens.deep_view();
        self.tokens.push(
            TokenRow { subscription_token: subscription_token.clone(), subscriber_id },
        );
        proof {
            assert(self.tokens.deep_view() =~~= before.push(self.tokens@.last()@));
        }
        Ok(())
    }

    /// The subscriber a stored token points at, if the token is known.
    pub fn get_subscriber_id_from_token(&self, subscription_token: &String) -> (r: Result<
        Option<u128>,
        ConfirmSubscriberError,
    >)
        ensures
            !self.available ==> (r matches Err(e) && e is UnexpectedError),
            self.available ==> (r matches Ok(found) && found == token_lookup(
                self.tokens.deep_view(),
                subscription_token@,
            )),
    {
        if !self.available {
            return Err(ConfirmSubscriberError::UnexpectedError);
        }
        let ghost all = self.tokens.deep_view();
        proof {
            assert(all.skip(0) =~= all);
        }
        let mut i: usize = 0;
        #[verifier::loop_isolation(false)]
        while i < self.tokens.len()
            invariant
                i <= self.tokens.len(),
                token_lookup(all, subscription_token@) == token_lookup(
                    all.skip(i as int),
                    subscription_token@,
                ),
            decreases self.tokens.len() - i,
        {
            proof {
                assert(all.skip(i as int)[0] == all[i as int]);
                assert(all.skip(i as int).skip(1) =~= all.skip(i + 1));
            }
            if crate::string_eq(&self.tokens[i].subscription_token, subscription_token) {
                return Ok(Some(self.tokens[i].subscriber_id));
            }
            i = i + 1;
        }
        proof {
            assert(all.skip(i as int).len() == 0);
        }
        Ok(None)
    }

    /// Marks the subscriber's row confirmed.
    pub fn confirm_subscriber(&mut self, subscriber_id: u128) -> (r: Result<
        (),
        ConfirmSubscriberError,
    >)
        ensures
            final(self).available == old(self).available,
            final(self).tokens@ == old(self).tokens@,
            !old(self).available ==> (r matches Err(e) && e is UnexpectedError) && final(self).rows.deep_view() == old(self).rows.deep_view(),
            old(self).available ==> (r is Ok) && {
                &&& final(self).rows.deep_view().len() == old(self).rows.deep_view().len()
                &&& forall|k: int|
                    0 <= k < old(self).rows.deep_view().len() && old(self).rows.deep_view()[k].id != subscriber_id ==> final(self).rows.deep_view()[k]
                        == old(self).rows.deep_view()[k]
                &&& forall|k: int|
                    0 <= k < old(self).rows.deep_view().len() && old(self).rows.deep_view()[k].id == subscriber_id ==> final(self).rows.deep_view()[k]
                        == (SubscriberRowView {
                        id: old(self).rows.deep_view()[k].id,
                        email: old(self).rows.deep_view()[k].email,
                        name: old(self).rows.deep_view()[k].name,
                        status: SubscriberStatus::Confirmed,
                    })
            },
    {
        if !self.available {
            return Err(ConfirmSubscriberError::UnexpectedError);
        }
        let ghost orig = self.rows.deep_view();
        let mut i: usize = 0;
        #[verifier::loop_isolation(false)]
        while i < self.rows.len()
            invariant
                i <= self.rows.len(),
                self.rows@.len() == old(self).rows@.len(),
                self.available == old(self).available,
                self.tokens@ == old(self).tokens@,
                forall|k: int|
                    0 <= k < orig.len() && orig[k].id != subscriber_id
                        ==> self.rows.deep_view()[k] == orig[k],
                forall|k: int| i <= k < orig.len() ==> self.rows.deep_view()[k] == orig[k],
                forall|k: int|
                    0 <= k < i && orig[k].id == subscriber_id ==> self.rows.deep_view()[k]
                        == (SubscriberRowView {
                        id: orig[k].id,
                        email: orig[k].email,
                        name: orig[k].name,
                        status: SubscriberStatus::Confirmed,
                    }),
            decreases self.rows.len() - i,
        {
            let ghost before = self.rows.deep_view();
            if self.rows[i].id == subscriber_id {
                let updated = SubscriberRow {
                    id: self.rows[i].id,
                    email: self.rows[i].email.clone(),
                    name: self.rows[i].name.clone(),
                    status: SubscriberStatus::Confirmed,
                };
                self.rows.set(i, updated);
                proof {
                    assert(self.rows.deep_view() =~~= before.update(
                        i as int,
                        SubscriberRowView {
                            id: before[i as int].id,
                            email: before[i as int].email,
                            name: before[i as int].name,
                            status: SubscriberStatus::Confirmed,
                        },
                    ));
                }
            }
            i = i + 1;
        }
        Ok(())
    }
}

/// The confirmation link a token produces under a base URL.
pub open spec fn confirmation_link(base_url: Seq<char>, token: Seq<char>) -> Seq<char> {
    base_url + "/subscriptions/confirm?subscription_token="@ + token
}

/// The HTML body of the confirmation email.
pub open spec fn confirmation_html(base_url: Seq<char>, token: Seq<char>) -> Seq<char> {
    "Welcome to our newsletter!<br />Click <a href=\""@ + confirmation_link(base_url, token)
        + "\">here</a> to confirm your subscription."@
}

/// The plain-text body of the confirmation email.
pub open spec fn confirmation_text(base_url: Seq<char>, token: Seq<char>) -> Seq<char> {
    "Welcome to our newsletter!\nVisit "@ + confirmation_link(base_url, token)
        + " to confirm your subscription."@
}

/// Assembles the confirmation email for a new subscriber: subject
/// "Welcome!", bodies carrying the tokenized confirmation link.
pub fn build_confirmation_email(
    email_client: &EmailClient,
    recipient: &SubscriberEmail,
    base_url: &String,
    subscription_token: &String,
) -> (r: SendEmailRequest)
    ensures
        r@.from == email_client.sender@,
        r@.to == recipient@,
        r@.subject == "Welcome!"@,
        r@.html_body == confirmation_html(base_url@, subscription_token@),
        r@.text_body == confirmation_text(base_url@, subscription_token@),
{
    let mut confirmation_link = base_url.clone();
    confirmation_link.append("/subscriptions/confirm?subscription_token=");
    confirmation_link.append(subscription_token.as_str());

    let mut html_body = String::new();
    html_body.append("Welcome to our newsletter!<br />Click <a href=\"");
    html_body.append(confirmation_link.as_str());
    html_body.append("\">here</a> to confirm your subscription.");

    let mut text_body = String::new();
    text_body.append("Welcome to our newsletter!\nVisit ");
    text_body.append(confirmation_link.as_str());
    text_body.append(" to confirm your subscription.");

    proof {
        assert(html_body@ =~= confirmation_html(base_url@, subscription_token@));
        assert(text_body@ =~= confirmation_text(base_url@, subscription_token@));
    }

    email_client.build_send_request(
        recipient,
        "Welcome!",
        html_body.as_str(),
        text_body.as_str(),
    )
}

/// Handles one subscription request: validate the form fields, store the
/// pending subscriber and a fresh confirmation token, and assemble the
/// confirmation email for the transport to send. Success is a plain 200.
pub fn subscribe(
    email: String,
    name: String,
    store: &mut SubscriptionStore,
    email_client: &EmailClient,
    base_url: &String,
) -> (r: Result<(HttpResponse, SendEmailRequest), SubscribeError>)
    ensures
        final(store).available == old(store).available,
        !(crate::domain::valid_name(name@) && crate::domain::valid_email(email@)) ==> {
            &&& r matches Err(e) && e is ValidationError
            &&& final(store).rows@ == old(store).rows@
            &&& final(store).tokens@ == old(store).tokens@
        },
        crate::domain::valid_name(name@) && crate::domain::valid_email(email@) && !old(store).available ==> {
            &&& r matches Err(e) && e is UnexpectedError
            &&& final(store).rows.deep_view() == old(store).rows.deep_view()
            &&& final(store).tokens.deep_view() == old(store).tokens.deep_view()
        },
        crate::domain::valid_name(name@) && crate::domain::valid_email(email@) && old(store).available ==> (r matches Ok((response, confirmation)) && {
            let rows0 = old(store).rows.deep_view();
            let tokens0 = old(store).tokens.deep_view();
            let rows1 = final(store).rows.deep_view();
            let tokens1 = final(store).tokens.deep_view();
            &&& response@.status == 200
            &&& rows1.len() == rows0.len() + 1
            &&& rows1.take(rows0.len() as int) == rows0
            &&& rows1.last().email == email@
            &&& rows1.last().name == name@
            &&& rows1.last().status == SubscriberStatus::PendingConfirmation
            &&& tokens1.len() == tokens0.len() + 1
            &&& tokens1.take(tokens0.len() as int) == tokens0
            &&& tokens1.last().subscriber_id == rows1.last().id
            &&& tokens1.last().token.len() == 25
            &&& forall|k: int|
                0 <= k < tokens1.last().token.len() ==> is_alphanumeric_char(
                    tokens1.last().token[k],
                )
            &&& confirmation@.to == email@
            &&& confirmation@.from == email_client.sender@
            &&& confirmation@.subject == "Welcome!"@
            &&& confirmation@.html_body == confirmation_html(base_url@, tokens1.last().token)
            &&& confirmation@.text_body == confirmation_text(base_url@, tokens1.last().token)
        }),
{
    let new_subscriber = match NewSubscriber::parse(email, name) {
        Ok(s) => s,
        Err(msg) => {
            return Err(SubscribeError::ValidationError(msg));
        },
    };

    let subscriber_id = match store.insert_subscriber(&new_subscriber) {
        Ok(id) => id,
        Err(e) => {
            return Err(e);
        },
    };

    let subscription_token = generate_subscription_token();
    match store.store_token(subscriber_id, &subscription_token) {
        Ok(()) => {},
        Err(e) => {
            return Err(e);
        },
    }

    let confirmation = build_confirmation_email(
        email_client,
        &new_subscriber.email,
        base_url,
        &subscription_token,
    );
    Ok((ok_response(), confirmation))
}

/// Handles one confirmation click: resolve the token, mark the subscriber
/// confirmed. An unknown token is rejected; only an unreachable store is an
/// internal failure.
pub fn confirm_subscription(parameters: &Parameters, store: &mut SubscriptionStore) -> (r: Result<
    HttpResponse,
    ConfirmSubscriberError,
>)
    ensures
        final(store).available == old(store).available,
        final(store).tokens@ == old(store).tokens@,
        !old(store).available ==> (r matches Err(e) && e is UnexpectedError) && final(store).rows.deep_view() == old(store).rows.deep_view(),
        old(store).available ==> match token_lookup(
            old(store).tokens.deep_view(),
            parameters.subscription_token@,
        ) {
            None => (r matches Err(e) && e is InvalidTokenError) && final(store).rows.deep_view()
                == old(store).rows.deep_view(),
            Some(subscriber_id) => (r matches Ok(response) && {
                &&& response@.status == 200
                &&& final(store).rows.deep_view().len() == old(store).rows.deep_view().len()
                &&& forall|k: int|
                    0 <= k < old(store).rows.deep_view().len() && old(store).rows.deep_view()[k].id != subscriber_id ==> final(store).rows.deep_view()[k]
                        == old(store).rows.deep_view()[k]
                &&& forall|k: int|
                    0 <= k < old(store).rows.deep_view().len() && old(store).rows.deep_view()[k].id == subscriber_id ==> final(store).rows.deep_view()[k]
                        == (SubscriberRowView {
                        id: old(store).rows.deep_view()[k].id,
                        email: old(store).rows.deep_view()[k].email,
                        name: old(store).rows.deep_view()[k].name,
                        status: SubscriberStatus::Confirmed,
                    })
            }),
        },
{
    let subscriber_id = match store.get_subscriber_id_from_token(&parameters.subscription_token) {
        Ok(Some(id)) => id,
        Ok(None) => {
            return Err(ConfirmSubscriberError::InvalidTokenError);
        },
        Err(e) => {
            return Err(e);
        },
    };

    match store.confirm_subscriber(subscriber_id) {
        Ok(()) => Ok(ok_response()),
        Err(e) => Err(e),
    }
}

} // verus!
