//! Error information.
use vstd::prelude::*;

verus! {

/// Custom error info for this crate.
#[derive(Debug, Clone, PartialEq)]
pub struct IBusErr {
    msg: String,
}

impl IBusErr {
    /// The error text.
    pub closed spec fn spec_msg(&self) -> Seq<char> {
        self.msg@
    }

    /// Wraps an error message.
    pub fn new(msg: String) -> (r: Self)
        ensures
            r.spec_msg() == msg@,
    {
        IBusErr { msg }
    }

    /// The error message.
    pub fn message(&self) -> (r: &String)
        ensures
            r@ == self.spec_msg(),
    {
        &self.msg
    }
}

} // verus!
