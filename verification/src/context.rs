//! The context in which a call runs.

use vstd::prelude::*;

use crate::address::Address;

verus! {

/// The context of a call: who sent it.
#[derive(Clone, Copy, Debug)]
pub struct Context {
    sender: Address,
}

impl Context {
    /// The context of a call sent by `sender`.
    pub fn new(sender: Address) -> (res: Context)
        ensures
            res.spec_sender() == sender,
    {
        Context { sender }
    }

    /// The sender of the call.
    pub closed spec fn spec_sender(&self) -> Address {
        self.sender
    }

    /// The sender of the call.
    pub fn sender(&self) -> (res: &Address)
        ensures
            *res == self.spec_sender(),
    {
        &self.sender
    }
}

} // verus!
