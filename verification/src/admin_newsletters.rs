//! The authenticated publish flow behind the admin area, the one place the
//! whole pipeline lines up: session, idempotency guard, audience resolution,
//! fan-out.
//!
//! An anonymous caller is sent to the login form. An authenticated
//! submission consults the guard under its (user, idempotency key) pair:
//! first sight yields the fan-out to execute together with the success
//! response; a repeat of a completed submission replays that saved response
//! verbatim with no second fan-out; a submission still in flight tells the
//! caller to wait. The caller performs the returned transport requests and
//! then saves the outcome through [`complete_publish`].

use crate::email_client::{EmailClient, SendEmailRequest};
use crate::http::{e400, e500, see_other, HttpResponse};
use crate::idempotency::{
    begin_model,
    complete_model,
    idem_lookup,
    BeginModel,
    BeginOutcome,
    IdempotencyStore,
    StoreUnreachable,
};
use crate::newsletters::{
    fan_out,
    fan_out_model,
    get_confirmed_subscribers,
    resolve_model,
    skipped_model,
};
use crate::session_state::TypedSession;
use crate::subscriptions::SubscriptionStore;
use vstd::prelude::*;

verus! {

/// The admin publish form's payload: a title and the issue's two bodies.
pub struct BodyData {
    pub title: String,
    pub html_content: String,
    pub text_content: String,
}

/// Validates the raw form fields, answering 400 when the title or either
/// content is missing.
pub fn parse_body_data(
    title: Option<String>,
    html_content: Option<String>,
    text_content: Option<String>,
) -> (r: Result<BodyData, HttpResponse>)
    ensures
        title is Some && html_content is Some && text_content is Some ==> (r matches Ok(b)
            && b.title@ == title->0@ && b.html_content@ == html_content->0@ && b.text_content@
            == text_content->0@),
        !(title is Some && html_content is Some && text_content is Some) ==> (r matches Err(resp)
            && resp@.status == 400),
{
    match (title, html_content, text_content) {
        (Some(title), Some(html_content), Some(text_content)) => Ok(
            BodyData { title, html_content, text_content },
        ),
        _ => Err(e400("missing title or content".to_owned())),
    }
}

/// What one pass through the publish pipeline decides.
pub enum PublishOutcome {
    /// No authenticated session: go log in.
    RedirectToLogin(HttpResponse),
    /// First sight of this (user, key): perform `deliveries`, then save
    /// `response` through [`complete_publish`] and return it.
    Execute { response: HttpResponse, deliveries: Vec<SendEmailRequest>, skipped: usize },
    /// This (user, key) already completed: return the saved response
    /// verbatim, delivering nothing.
    Replayed(HttpResponse),
    /// Another submission of this (user, key) is still running: wait and
    /// submit again.
    InFlight,
    /// A collaborator store could not be reached.
    Failed(HttpResponse),
}

/// Decides one publish submission. The guard's record for (user, key) is
/// created here on first sight, so of any number of concurrent submissions
/// exactly one receives `Execute` — the rest observe its record.
pub fn publish_newsletter(
    session: &TypedSession,
    body: &BodyData,
    idempotency_key: &String,
    created_at: u64,
    guard: &mut IdempotencyStore,
    subscription_store: &SubscriptionStore,
    email_client: &EmailClient,
) -> (r: PublishOutcome)
    ensures
        final(guard).available == old(guard).available,
        match session.user_id {
            None => (r matches PublishOutcome::RedirectToLogin(resp) && resp@.status == 303
                && resp@.location == Some("/login"@)) && final(guard).records.deep_view() == old(guard).records.deep_view(),
            Some(user_id) => if !subscription_store.available || !old(guard).available {
                (r matches PublishOutcome::Failed(resp) && resp@.status == 500) && final(guard).records.deep_view() == old(guard).records.deep_view()
            } else {
                let (new_records, outcome) = begin_model(
                    old(guard).records.deep_view(),
                    user_id,
                    idempotency_key@,
                    created_at,
                );
                &&& final(guard).records.deep_view() == new_records
                &&& match outcome {
                    BeginModel::Fresh => r matches PublishOutcome::Execute {
                        response,
                        deliveries,
                        skipped,
                    } && {
                        let entries = resolve_model(subscription_store.rows.deep_view());
                        &&& response@.status == 303
                        &&& response@.location == Some("/admin/newsletters"@)
                        &&& response@.flashes =~= seq![
                            "The newsletter issue has been published!"@,
                        ]
                        &&& deliveries.deep_view() == fan_out_model(
                            email_client.sender@,
                            body.title@,
                            body.html_content@,
                            body.text_content@,
                            entries,
                        )
                        &&& skipped == skipped_model(entries)
                    },
                    BeginModel::InProgress => r is InFlight,
                    BeginModel::Found(saved) => r matches PublishOutcome::Replayed(resp) && resp@
                        == saved,
                }
            },
        },
{
    let user_id = match session.get_user_id() {
        Some(user_id) => user_id,
        None => {
            return PublishOutcome::RedirectToLogin(see_other("/login"));
        },
    };

    if !subscription_store.available {
        return PublishOutcome::Failed(e500("Something went wrong.".to_owned()));
    }

    match guard.begin_idempotent(user_id, idempotency_key, created_at) {
        Err(StoreUnreachable) => PublishOutcome::Failed(e500("Something went wrong.".to_owned())),
        Ok(BeginOutcome::InProgress) => PublishOutcome::InFlight,
        Ok(BeginOutcome::Found(saved)) => PublishOutcome::Replayed(saved),
        Ok(BeginOutcome::Fresh) => {
            let entries = match get_confirmed_subscribers(subscription_store) {
                Ok(entries) => entries,
                Err(_) => {
                    return PublishOutcome::Failed(e500("Something went wrong.".to_owned()));
                },
            };
            let (deliveries, skipped) = fan_out(
                email_client,
                body.title.as_str(),
                body.html_content.as_str(),
                body.text_content.as_str(),
                &entries,
            );
            let response = see_other("/admin/newsletters").with_flash(
                "The newsletter issue has been published!".to_owned(),
            );
            PublishOutcome::Execute { response, deliveries, skipped }
        },
    }
}

/// Saves the outcome of an executed submission. The record the caller was
/// granted `Fresh` for — still in progress — now holds the response; a
/// record that is absent or already completed is left exactly as it is, so
/// a saved outcome is never overwritten.
pub fn complete_publish(
    user_id: u128,
    idempotency_key: &String,
    response: &HttpResponse,
    guard: &mut IdempotencyStore,
) -> (r: Result<(), StoreUnreachable>)
    ensures
        final(guard).available == old(guard).available,
        old(guard).wf() ==> final(guard).wf(),
        !old(guard).available ==> r is Err && final(guard).records.deep_view() == old(guard).records.deep_view(),
        old(guard).available ==> r is Ok && match idem_lookup(
            old(guard).records.deep_view(),
            user_id,
            idempotency_key@,
        ) {
            Some(rec) => if rec.state is InProgress {
                final(guard).records.deep_view() == complete_model(
                    old(guard).records.deep_view(),
                    user_id,
                    idempotency_key@,
                    response@,
                )
            } else {
                final(guard).records.deep_view() == old(guard).records.deep_view()
            },
            None => final(guard).records.deep_view() == old(guard).records.deep_view(),
        },
{
    if !guard.available {
        return Err(StoreUnreachable);
    }
    if guard.has_in_progress(user_id, idempotency_key) {
        guard.complete_idempotent(user_id, idempotency_key, response)
    } else {
        Ok(())
    }
}

} // verus!
