//! The typed layer over one request's session handle.
//!
//! A session is either anonymous (`user_id` is `None`) or authenticated, and
//! carries an `epoch` counting how often its identifier has been reissued.
//! Renewal hands out a fresh identifier while keeping the identity — the
//! session-fixation mitigation — and logout purges the bound identity.
//! Persisting the state under the opaque token is the backing session store's
//! concern, not modelled here.

use vstd::prelude::*;

verus! {

/// One request's session: the authenticated user, if any, and the
/// incarnation count of the session identifier.
pub struct TypedSession {
    pub user_id: Option<u128>,
    pub epoch: u64,
}

impl TypedSession {
    /// A fresh anonymous session.
    pub fn new() -> (r: TypedSession)
        ensures
            r.user_id is None,
            r.epoch == 0,
    {
        TypedSession { user_id: None, epoch: 0 }
    }

    /// Issues a fresh session identifier while preserving the bound
    /// identity, so an identifier fixed before login stops working.
    pub fn renew(&mut self)
        requires
            old(self).epoch < u64::MAX,
        ensures
            final(self).user_id == old(self).user_id,
            final(self).epoch == old(self).epoch + 1,
    {
        self.epoch = self.epoch + 1;
    }

    /// Binds an authenticated identity to the current session.
    pub fn insert_user(&mut self, user_id: u128)
        ensures
            final(self).user_id == Some(user_id),
            final(self).epoch == old(self).epoch,
    {
        self.user_id = Some(user_id);
    }

    /// The identity bound to this session, if any.
    pub fn get_user_id(&self) -> (r: Option<u128>)
        ensures
            r == self.user_id,
    {
        self.user_id
    }

    /// Purges the session's state: whoever was logged in no longer is.
    pub fn logout(&mut self)
        ensures
            final(self).user_id is None,
            final(self).epoch == old(self).epoch,
    {
        self.user_id = None;
    }
}

} // verus!
