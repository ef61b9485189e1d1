//! The local operator's profile.

use vstd::prelude::*;

verus! {

/// The profile of the person who runs the application. It is read once at
/// start-up and never changed afterwards.
#[derive(Debug)]
pub struct User {
    /// The address that identifies the operator and signs their posts.
    pub addr: String,
}

impl Clone for User {
    /// An equal profile.
    fn clone(&self) -> (u: Self)
        ensures
            u == *self,
    {
        User { addr: self.addr.clone() }
    }
}

impl User {
    /// A profile with the given address.
    pub fn new(addr: String) -> (u: Self)
        ensures
            u.addr == addr,
    {
        User { addr }
    }
}

} // verus!
