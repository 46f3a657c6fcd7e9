//! The process-wide authentication context: one bearer credential slot and a
//! stable per-process client identifier.
//!
//! The slot is owned by the caller and shared by reference across transfer
//! calls; a transfer keeps using whatever credential it captured at call
//! start, so replacing or clearing the slot never affects a call already in
//! flight.

use vstd::prelude::*;

verus! {

/// The shared credential slot and client identifier.
pub struct AuthContext {
    /// The current bearer credential; empty means unauthenticated.
    pub credential: String,
    /// The stable per-process client identifier.
    pub client_id: String,
}

impl AuthContext {
    /// A fresh, unauthenticated context with the given client identifier.
    pub fn new(client_id: String) -> (ctx: AuthContext)
        ensures
            ctx.credential@ == Seq::<char>::empty(),
            ctx.client_id == client_id,
    {
        AuthContext { credential: String::new(), client_id }
    }

    /// The credential a transfer captures at call start.
    pub fn current_credential(&self) -> (t: String)
        ensures
            t == self.credential,
    {
        self.credential.clone()
    }

    /// The per-process client identifier.
    pub fn client_identifier(&self) -> (id: String)
        ensures
            id == self.client_id,
    {
        self.client_id.clone()
    }

    /// Replace the credential, e.g. after a sign-in.
    pub fn set_credential(&mut self, token: String)
        ensures
            final(self).credential == token,
            final(self).client_id == old(self).client_id,
    {
        self.credential = token;
    }

    /// Clear the credential, e.g. on logout.  Calls already in flight keep
    /// the credential they captured.
    pub fn clear_credential(&mut self)
        ensures
            final(self).credential@ == Seq::<char>::empty(),
            final(self).client_id == old(self).client_id,
    {
        self.credential = String::new();
    }
}

} // verus!
