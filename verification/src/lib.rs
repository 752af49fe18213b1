//! Subscriber-management core: credential validation, session handling,
//! idempotent newsletter publishing and fan-out delivery.

use vstd::prelude::*;

pub mod admin;
pub mod admin_newsletters;
pub mod authentication;
pub mod configuration;
pub mod domain;
pub mod email_client;
pub mod http;
pub mod idempotency;
pub mod login;
pub mod newsletters;
pub mod secret;
pub mod session_state;
pub mod subscriptions;
pub mod text;

verus! {

/// A subscriber's lifecycle position: freshly subscribed members wait in
/// `PendingConfirmation` until they follow the mailed confirmation link.
#[derive(Clone, Copy, PartialEq, Eq, Structural, Debug)]
pub enum SubscriberStatus {
    PendingConfirmation,
    Confirmed,
}

impl SubscriberStatus {
    /// Whether a subscriber in this status may receive newsletter issues.
    pub fn is_confirmed(&self) -> (r: bool)
        ensures
            r == (*self == SubscriberStatus::Confirmed),
    {
        match self {
            SubscriberStatus::Confirmed => true,
            SubscriberStatus::PendingConfirmation => false,
        }
    }
}

/// Exact string comparison, surfaced as a view equality.
pub fn string_eq(a: &String, b: &String) -> (r: bool)
    ensures
        r == (a@ == b@),
{
    *a == *b
}

} // verus!
