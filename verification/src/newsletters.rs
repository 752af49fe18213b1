//! Newsletter delivery: resolving the confirmed audience and fanning one
//! issue out to it.
//!
//! Resolution walks the subscription rows, keeps exactly the confirmed ones,
//! and wraps each row whose stored email no longer validates instead of
//! aborting the batch. The dispatcher turns the resolved entries into one
//! transport request per deliverable recipient — a malformed entry is
//! skipped and counted, isolating it from the rest — and the unverified
//! transport performs the requests afterwards, one by one, logging and
//! moving on when a send fails rather than abandoning the batch.
//!
//! The publish endpoint guarded by Basic authentication lives here too: the
//! credential is decoded from the `Authorization` header and validated
//! before any subscriber is resolved.

use crate::authentication::{validate_model, AuthError, Credential, CredentialStore};
use crate::domain::{check_email, valid_email, SubscriberEmail};
use crate::email_client::{EmailClient, SendEmailRequest, SendEmailRequestView};
use crate::http::{ok_response, HttpResponse};
use crate::secret::{secret_str, SecretString};
use crate::subscriptions::{SubscriberRowView, SubscriptionStore};
use crate::SubscriberStatus;
use vstd::prelude::*;
use vstd::string::StrSliceExecFns;

verus! {

/// A subscriber the dispatcher may deliver to.
pub struct ConfirmedSubscriber {
    pub email: SubscriberEmail,
}

/// One resolved row: a deliverable confirmed subscriber, or the stored email
/// string that no longer validates — kept so the skip can be logged with its
/// cause.
pub enum SubscriberEntry {
    Valid(ConfirmedSubscriber),
    Malformed(String),
}

/// The abstract value of a resolved row.
pub enum EntryView {
    Valid(Seq<char>),
    Malformed(Seq<char>),
}

impl View for SubscriberEntry {
    type V = EntryView;

    open spec fn view(&self) -> EntryView {
        match self {
            SubscriberEntry::Valid(subscriber) => EntryView::Valid(subscriber.email@),
            SubscriberEntry::Malformed(email) => EntryView::Malformed(email@),
        }
    }
}

impl DeepView for SubscriberEntry {
    type V = EntryView;

    open spec fn deep_view(&self) -> EntryView {
        self.view()
    }
}

/// How one stored email resolves: deliverable or malformed.
pub open spec fn entry_of(email: Seq<char>) -> EntryView {
    if valid_email(email) {
        EntryView::Valid(email)
    } else {
        EntryView::Malformed(email)
    }
}

/// What resolution returns: one entry per confirmed row, in row order;
/// pending rows contribute nothing.
pub open spec fn resolve_model(rows: Seq<SubscriberRowView>) -> Seq<EntryView>
    decreases rows.len(),
{
    if rows.len() == 0 {
        Seq::empty()
    } else {
        let rest = resolve_model(rows.skip(1));
        if rows[0].status == SubscriberStatus::Confirmed {
            seq![entry_of(rows[0].email)] + rest
        } else {
            rest
        }
    }
}

/// Why a publish attempt failed: the caller could not be authenticated, or
/// a collaborator failed.
#[derive(Clone, Copy, PartialEq, Eq, Structural, Debug)]
pub enum PublishError {
    AuthError,
    UnexpectedError,
}

impl PublishError {
    /// The HTTP status this failure maps to.
    pub fn status_code(&self) -> (r: u16)
        ensures
            *self == PublishError::AuthError ==> r == 401,
            *self == PublishError::UnexpectedError ==> r == 500,
    {
        match self {
            PublishError::AuthError => 401,
            PublishError::UnexpectedError => 500,
        }
    }

    /// The bare response for this failure; the HTTP layer attaches the
    /// `Basic` authentication challenge header on the 401.
    pub fn error_response(&self) -> (r: HttpResponse)
        ensures
            *self == PublishError::AuthError ==> r@.status == 401,
            *self == PublishError::UnexpectedError ==> r@.status == 500,
            r@.body.len() == 0,
    {
        HttpResponse {
            status: self.status_code(),
            location: None,
            body: String::new(),
            flashes: Vec::new(),
        }
    }
}

/// Loads the confirmed audience, one entry per confirmed row in stored
/// order. A row whose stored email fails validation becomes a `Malformed`
/// entry rather than aborting the batch; only an unreachable store fails the
/// whole call.
pub fn get_confirmed_subscribers(store: &SubscriptionStore) -> (r: Result<
    Vec<SubscriberEntry>,
    PublishError,
>)
    ensures
        !store.available ==> r == Err::<Vec<SubscriberEntry>, PublishError>(
            PublishError::UnexpectedError,
        ),
        store.available ==> (r matches Ok(entries) && entries.deep_view() == resolve_model(
            store.rows.deep_view(),
        )),
{
    if !store.available {
        return Err(PublishError::UnexpectedError);
    }
    let ghost all = store.rows.deep_view();
    proof {
        assert(all.skip(0) =~= all);
    }
    let mut entries: Vec<SubscriberEntry> = Vec::new();
    let mut i: usize = 0;
    #[verifier::loop_isolation(false)]
    while i < store.rows.len()
        invariant
            i <= store.rows.len(),
            entries.deep_view() + resolve_model(all.skip(i as int)) == resolve_model(all),
        decreases store.rows.len() - i,
    {
        proof {
            assert(all.skip(i as int)[0] == all[i as int]);
            assert(all.skip(i as int).skip(1) =~= all.skip(i + 1));
        }
        let ghost prev = entries.deep_view();
        let row = &store.rows[i];
        if row.status.is_confirmed() {
            if check_email(row.email.as_str()) {
                match SubscriberEmail::parse(row.email.clone()) {
                    Ok(email) => entries.push(
                        SubscriberEntry::Valid(ConfirmedSubscriber { email }),
                    ),
                    Err(message) => entries.push(SubscriberEntry::Malformed(message)),
                }
            } else {
                entries.push(SubscriberEntry::Malformed(row.email.clone()));
            }
            proof {
                assert(entries.deep_view() =~~= prev.push(entry_of(all[i as int].email)));
                assert(prev.push(entry_of(all[i as int].email)) + resolve_model(all.skip(i + 1))
                    =~= prev + (seq![entry_of(all[i as int].email)] + resolve_model(
                    all.skip(i + 1),
                )));
            }
        }
        i = i + 1;
    }
    proof {
        assert(all.skip(i as int).len() == 0);
        assert(resolve_model(all.skip(i as int)) =~= Seq::<EntryView>::empty());
        assert(entries.deep_view() + Seq::<EntryView>::empty() =~= entries.deep_view());
    }
    Ok(entries)
}

/// The transport calls one issue produces: a request per deliverable entry,
/// in resolution order.
pub open spec fn fan_out_model(
    sender: Seq<char>,
    title: Seq<char>,
    html: Seq<char>,
    text: Seq<char>,
    entries: Seq<EntryView>,
) -> Seq<SendEmailRequestView>
    decreases entries.len(),
{
    if entries.len() == 0 {
        Seq::empty()
    } else {
        let rest = fan_out_model(sender, title, html, text, entries.skip(1));
        match entries[0] {
            EntryView::Valid(email) => seq![
                SendEmailRequestView {
                    from: sender,
                    to: email,
                    subject: title,
                    text_body: text,
                    html_body: html,
                },
            ] + rest,
            EntryView::Malformed(_) => rest,
        }
    }
}

/// How many entries the fan-out skips as malformed.
pub open spec fn skipped_model(entries: Seq<EntryView>) -> nat
    decreases entries.len(),
{
    if entries.len() == 0 {
        0
    } else {
        (if entries[0] is Malformed {
            1nat
        } else {
            0nat
        }) + skipped_model(entries.skip(1))
    }
}

/// Assembles the fan-out for one issue: a transport request per deliverable
/// entry, and the count of malformed entries skipped. A skipped entry never
/// silences the rest — every other recipient still gets its request.
pub fn fan_out(
    email_client: &EmailClient,
    title: &str,
    html_content: &str,
    text_content: &str,
    entries: &Vec<SubscriberEntry>,
) -> (r: (Vec<SendEmailRequest>, usize))
    ensures
        r.0.deep_view() == fan_out_model(
            email_client.sender@,
            title@,
            html_content@,
            text_content@,
            entries.deep_view(),
        ),
        r.1 == skipped_model(entries.deep_view()),
{
    let ghost all = entries.deep_view();
    let ghost sender = email_client.sender@;
    proof {
        assert(all.skip(0) =~= all);
    }
    let mut deliveries: Vec<SendEmailRequest> = Vec::new();
    let mut skipped: usize = 0;
    let mut i: usize = 0;
    #[verifier::loop_isolation(false)]
    while i < entries.len()
        invariant
            i <= entries.len(),
            skipped <= i,
            deliveries.deep_view() + fan_out_model(sender, title@, html_content@, text_content@, all.skip(i as int))
                == fan_out_model(sender, title@, html_content@, text_content@, all),
            skipped + skipped_model(all.skip(i as int)) == skipped_model(all),
        decreases entries.len() - i,
    {
        proof {
            assert(all.skip(i as int)[0] == all[i as int]);
            assert(all.skip(i as int).skip(1) =~= all.skip(i + 1));
        }
        let ghost prev = deliveries.deep_view();
        match &entries[i] {
            SubscriberEntry::Valid(subscriber) => {
                let request = email_client.build_send_request(
                    &subscriber.email,
                    title,
                    html_content,
                    text_content,
                );
                deliveries.push(request);
                proof {
                    let head = SendEmailRequestView {
                        from: sender,
                        to: all[i as int]->Valid_0,
                        subject: title@,
                        text_body: text_content@,
                        html_body: html_content@,
                    };
                    assert(deliveries.deep_view() =~~= prev.push(head));
                    assert(prev.push(head) + fan_out_model(
                        sender,
                        title@,
                        html_content@,
                        text_content@,
                        all.skip(i + 1),
                    ) =~= prev + (seq![head] + fan_out_model(
                        sender,
                        title@,
                        html_content@,
                        text_content@,
                        all.skip(i + 1),
                    )));
                }
            },
            SubscriberEntry::Malformed(_) => {
                skipped = skipped + 1;
            },
        }
        i = i + 1;
    }
    proof {
        assert(all.skip(i as int).len() == 0);
        assert(deliveries.deep_view() + Seq::<SendEmailRequestView>::empty()
            =~= deliveries.deep_view());
    }
    (deliveries, skipped)
}

// ------------------------------------------------------------------
// Laws
// ------------------------------------------------------------------

/// Law: fan-out isolation — every entry is either delivered to or counted
/// as skipped, so among N resolved entries with one malformed, exactly N - 1
/// requests go out and exactly one skip is recorded.
pub proof fn lemma_fan_out_isolation(
    sender: Seq<char>,
    title: Seq<char>,
    html: Seq<char>,
    text: Seq<char>,
    entries: Seq<EntryView>,
)
    ensures
        fan_out_model(sender, title, html, text, entries).len() + skipped_model(entries)
            == entries.len(),
    decreases entries.len(),
{
    if entries.len() > 0 {
        lemma_fan_out_isolation(sender, title, html, text, entries.skip(1));
    }
}


/// How many rows stand confirmed.
pub open spec fn confirmed_count(rows: Seq<SubscriberRowView>) -> nat
    decreases rows.len(),
{
    if rows.len() == 0 {
        0
    } else {
        (if rows[0].status == SubscriberStatus::Confirmed {
            1nat
        } else {
            0nat
        }) + confirmed_count(rows.skip(1))
    }
}

/// Law: resolution yields exactly one entry per confirmed row — none is
/// dropped, none is invented — so with the fan-out partition above, the
/// requests sent plus the skips recorded add up to the confirmed audience.
pub proof fn lemma_resolution_covers_confirmed(rows: Seq<SubscriberRowView>)
    ensures
        resolve_model(rows).len() == confirmed_count(rows),
    decreases rows.len(),
{
    if rows.len() > 0 {
        lemma_resolution_covers_confirmed(rows.skip(1));
    }
}

/// Some confirmed row carries exactly this email.
pub open spec fn confirmed_row_with_email(rows: Seq<SubscriberRowView>, email: Seq<char>) -> bool {
    exists|j: int|
        0 <= j < rows.len() && rows[j].status == SubscriberStatus::Confirmed && rows[j].email
            == email
}

/// Law: unconfirmed subscribers never receive a delivery — every request the
/// pipeline produces is addressed to the stored email of a confirmed row,
/// and that email validates.
pub proof fn lemma_only_confirmed_delivered(
    rows: Seq<SubscriberRowView>,
    sender: Seq<char>,
    title: Seq<char>,
    html: Seq<char>,
    text: Seq<char>,
)
    ensures
        ({
            let deliveries = fan_out_model(sender, title, html, text, resolve_model(rows));
            forall|k: int|
                0 <= k < deliveries.len() ==> confirmed_row_with_email(rows, deliveries[k].to)
                    && valid_email(deliveries[k].to)
        }),
    decreases rows.len(),
{
    let deliveries = fan_out_model(sender, title, html, text, resolve_model(rows));
    if rows.len() == 0 {
    } else {
        lemma_only_confirmed_delivered(rows.skip(1), sender, title, html, text);
        let rest_entries = resolve_model(rows.skip(1));
        let rest = fan_out_model(sender, title, html, text, rest_entries);
        if rows[0].status == SubscriberStatus::Confirmed {
            let head_entries = seq![entry_of(rows[0].email)] + rest_entries;
            assert(head_entries.skip(1) =~= rest_entries);
            if valid_email(rows[0].email) {
                assert(deliveries[0].to == rows[0].email);
                assert forall|k: int| 0 <= k < deliveries.len() implies confirmed_row_with_email(
                    rows,
                    deliveries[k].to,
                ) && valid_email(deliveries[k].to) by {
                    if k == 0 {
                        assert(rows[0].status == SubscriberStatus::Confirmed && rows[0].email
                            == deliveries[0].to);
                    } else {
                        assert(deliveries[k] == rest[k - 1]);
                        let j = choose|j: int|
                            0 <= j < rows.skip(1).len() && rows.skip(1)[j].status
                                == SubscriberStatus::Confirmed && rows.skip(1)[j].email == rest[k
                                - 1].to;
                        assert(rows[j + 1] == rows.skip(1)[j]);
                    }
                }
            } else {
                assert(deliveries =~= rest);
                assert forall|k: int| 0 <= k < deliveries.len() implies confirmed_row_with_email(
                    rows,
                    deliveries[k].to,
                ) && valid_email(deliveries[k].to) by {
                    let j = choose|j: int|
                        0 <= j < rows.skip(1).len() && rows.skip(1)[j].status
                            == SubscriberStatus::Confirmed && rows.skip(1)[j].email
                            == deliveries[k].to;
                    assert(rows[j + 1] == rows.skip(1)[j]);
                }
            }
        } else {
            assert(deliveries =~= rest);
            assert forall|k: int| 0 <= k < deliveries.len() implies confirmed_row_with_email(
                rows,
                deliveries[k].to,
            ) && valid_email(deliveries[k].to) by {
                let j = choose|j: int|
                    0 <= j < rows.skip(1).len() && rows.skip(1)[j].status
                        == SubscriberStatus::Confirmed && rows.skip(1)[j].email
                        == deliveries[k].to;
                assert(rows[j + 1] == rows.skip(1)[j]);
            }
        }
    }
}

// ------------------------------------------------------------------
// Basic authentication and the authenticated publish endpoint
// ------------------------------------------------------------------

/// What `base64::decode_config` with the standard alphabet returns for a
/// given input: decoding is deterministic in the string alone; `None` stands
/// for a rejected encoding.
pub uninterp spec fn base64_standard_decode(s: Seq<char>) -> Option<Seq<u8>>;

/// Relies on `base64::decode_config` with `base64::STANDARD`.
#[verifier::external_body]
fn base64_decode_standard(input: &str) -> (r: Option<Vec<u8>>)
    ensures
        match r {
            Some(bytes) => base64_standard_decode(input@) == Some(bytes@),
            None => base64_standard_decode(input@) is None,
        },
{
    base64::decode_config(input, base64::STANDARD).ok()
}

/// What `String::from_utf8` returns for given bytes: decoding is
/// deterministic in the bytes alone; `None` stands for invalid UTF-8.
pub uninterp spec fn utf8_decode(bytes: Seq<u8>) -> Option<Seq<char>>;

/// Relies on `String::from_utf8` of std, which vstd leaves unspecified.
#[verifier::external_body]
fn string_from_utf8(bytes: Vec<u8>) -> (r: Option<String>)
    ensures
        match r {
            Some(s) => utf8_decode(bytes@) == Some(s@),
            None => utf8_decode(bytes@) is None,
        },
{
    String::from_utf8(bytes).ok()
}

/// The position of the first `c` in `s`, or -1 when `s` has none.
pub open spec fn find_char(s: Seq<char>, c: char) -> int
    decreases s.len(),
{
    if s.len() == 0 {
        -1
    } else if s[0] == c {
        0
    } else {
        let rest = find_char(s.skip(1), c);
        if rest == -1 {
            -1
        } else {
            rest + 1
        }
    }
}

/// A scan that saw no `c` before `i` and `c` at `i` pins the first position.
proof fn lemma_find_char_hit(s: Seq<char>, c: char, i: int)
    requires
        0 <= i < s.len(),
        s[i] == c,
        forall|k: int| 0 <= k < i ==> s[k] != c,
    ensures
        find_char(s, c) == i,
    decreases i,
{
    if i > 0 {
        assert(s.skip(1)[i - 1] == s[i]);
        assert forall|k: int| 0 <= k < i - 1 implies s.skip(1)[k] != c by {
            assert(s.skip(1)[k] == s[k + 1]);
        }
        lemma_find_char_hit(s.skip(1), c, i - 1);
    }
}

/// A scan that saw no `c` at all means there is none.
proof fn lemma_find_char_miss(s: Seq<char>, c: char)
    requires
        forall|k: int| 0 <= k < s.len() ==> s[k] != c,
    ensures
        find_char(s, c) == -1,
    decreases s.len(),
{
    if s.len() > 0 {
        assert forall|k: int| 0 <= k < s.skip(1).len() implies s.skip(1)[k] != c by {
            assert(s.skip(1)[k] == s[k + 1]);
        }
        lemma_find_char_miss(s.skip(1), c);
    }
}

/// The view of an optional header value.
pub open spec fn header_view(header: Option<&String>) -> Option<Seq<char>> {
    match header {
        Some(h) => Some(h@),
        None => None,
    }
}

/// Whether the header value opens with the `Basic ` scheme marker.
pub open spec fn has_basic_prefix(h: Seq<char>) -> bool {
    h.len() >= 6 && h[0] == 'B' && h[1] == 'a' && h[2] == 's' && h[3] == 'i' && h[4] == 'c'
        && h[5] == ' '
}

/// The credential a `Basic` authorization header decodes to, if it decodes:
/// the scheme prefix, then base64, then UTF-8, then the username before the
/// first colon and the password after it. Each missing piece rejects the
/// header.
pub open spec fn basic_auth_model(header: Option<Seq<char>>) -> Option<(Seq<char>, Seq<char>)> {
    match header {
        None => None,
        Some(h) => if !has_basic_prefix(h) {
            None
        } else {
            match base64_standard_decode(h.skip(6)) {
                None => None,
                Some(bytes) => match utf8_decode(bytes) {
                    None => None,
                    Some(decoded) => {
                        let colon = find_char(decoded, ':');
                        if colon == -1 {
                            None
                        } else {
                            Some((decoded.take(colon), decoded.skip(colon + 1)))
                        }
                    },
                },
            }
        },
    }
}

/// Decodes a `Basic` authorization header into the credential it carries.
/// The error string names the first missing piece; it is never shown to the
/// caller verbatim, only logged.
pub fn basic_authentication(authorization_header: Option<&String>) -> (r: Result<
    Credential,
    String,
>)
    ensures
        match basic_auth_model(header_view(authorization_header)) {
            Some(parts) => (r matches Ok(c) && c.username@ == parts.0 && secret_str(c.password)
                == parts.1),
            None => r is Err,
        },
{
    let header = match authorization_header {
        Some(h) => h,
        None => {
            return Err("The 'Authorization' header is missing.".to_owned());
        },
    };
    let header_str = header.as_str();
    let header_len = header_str.unicode_len();
    if header_len < 6 {
        return Err("The authorization scheme was not 'Basic'.".to_owned());
    }
    if !(header_str.get_char(0) == 'B' && header_str.get_char(1) == 'a' && header_str.get_char(2)
        == 's' && header_str.get_char(3) == 'i' && header_str.get_char(4) == 'c'
        && header_str.get_char(5) == ' ') {
        return Err("The authorization scheme was not 'Basic'.".to_owned());
    }

    let encoded_segment = header_str.substring_char(6, header_len);
    proof {
        assert(encoded_segment@ =~= header@.skip(6));
    }
    let decoded_bytes = match base64_decode_standard(encoded_segment) {
        Some(bytes) => bytes,
        None => {
            return Err("Failed to base64-decode 'Basic' credential.".to_owned());
        },
    };
    let decoded = match string_from_utf8(decoded_bytes) {
        Some(s) => s,
        None => {
            return Err("The decoded credential string is not valid UTF8.".to_owned());
        },
    };

    let decoded_str = decoded.as_str();
    let decoded_len = decoded_str.unicode_len();
    let mut i: usize = 0;
    #[verifier::loop_isolation(false)]
    while i < decoded_len
        invariant
            i <= decoded_len,
            forall|k: int| 0 <= k < i ==> decoded@[k] != ':',
        decreases decoded_len - i,
    {
        if decoded_str.get_char(i) == ':' {
            proof {
                lemma_find_char_hit(decoded@, ':', i as int);
            }
            let username = decoded_str.substring_char(0, i).to_owned();
            let password = decoded_str.substring_char(i + 1, decoded_len).to_owned();
            proof {
                assert(username@ =~= decoded@.take(i as int));
                assert(password@ =~= decoded@.skip(i + 1));
            }
            return Ok(Credential { username, password: SecretString::new(password) });
        }
        i = i + 1;
    }
    proof {
        lemma_find_char_miss(decoded@, ':');
    }
    Err("A password must be provided in 'Basic' auth.".to_owned())
}

/// One newsletter issue as the publish endpoint receives it.
pub struct Content {
    pub html: String,
    pub text: String,
}

/// The publish endpoint's payload: a title and the issue's two bodies.
pub struct BodyData {
    pub title: String,
    pub content: Content,
}

/// Publishes one issue through the Basic-authenticated endpoint: decode and
/// validate the caller's credential, resolve the confirmed audience, and
/// assemble the fan-out. The transport performs the returned requests
/// afterwards; a failed send is logged and the batch continues.
pub fn publish_newsletter(
    authorization_header: Option<&String>,
    body: &BodyData,
    credential_store: &CredentialStore,
    subscription_store: &SubscriptionStore,
    email_client: &EmailClient,
) -> (r: Result<(HttpResponse, Vec<SendEmailRequest>, usize), PublishError>)
    ensures
        match basic_auth_model(header_view(authorization_header)) {
            None => r == Err::<(HttpResponse, Vec<SendEmailRequest>, usize), PublishError>(
                PublishError::AuthError,
            ),
            Some(parts) => match validate_model(
                credential_store.users@,
                credential_store.available,
                parts.0,
                parts.1,
            ) {
                Err(e) => r == Err::<(HttpResponse, Vec<SendEmailRequest>, usize), PublishError>(
                    if e == AuthError::InvalidCredentials {
                        PublishError::AuthError
                    } else {
                        PublishError::UnexpectedError
                    },
                ),
                Ok(_) => if !subscription_store.available {
                    r == Err::<(HttpResponse, Vec<SendEmailRequest>, usize), PublishError>(
                        PublishError::UnexpectedError,
                    )
                } else {
                    r matches Ok(out) && {
                        let entries = resolve_model(subscription_store.rows.deep_view());
                        &&& out.0@.status == 200
                        &&& out.1.deep_view() == fan_out_model(
                            email_client.sender@,
                            body.title@,
                            body.content.html@,
                            body.content.text@,
                            entries,
                        )
                        &&& out.2 == skipped_model(entries)
                    }
                },
            },
        },
{
    let credential = match basic_authentication(authorization_header) {
        Ok(c) => c,
        Err(_) => {
            return Err(PublishError::AuthError);
        },
    };

    match crate::authentication::validate_credential(credential, credential_store) {
        Ok(_) => {},
        Err(AuthError::InvalidCredentials) => {
            return Err(PublishError::AuthError);
        },
        Err(AuthError::UnexpectedError) => {
            return Err(PublishError::UnexpectedError);
        },
    }

    let entries = match get_confirmed_subscribers(subscription_store) {
        Ok(entries) => entries,
        Err(e) => {
            return Err(e);
        },
    };

    let (deliveries, skipped) = fan_out(
        email_client,
        body.title.as_str(),
        body.content.html.as_str(),
        body.content.text.as_str(),
        &entries,
    );
    Ok((ok_response(), deliveries, skipped))
}

} // verus!
