//! The preedit focus mode of the ibus protocol.
use vstd::prelude::*;

verus! {

/// What happens to the preedit text when the engine loses focus.
#[derive(Debug, Copy, Clone, PartialEq, Eq, Structural)]
pub enum IBusPreeditFocusMode {
    /// Clear the preedit text.
    Clear,
    /// Commit the preedit text as if typed.
    Commit,
}

impl IBusPreeditFocusMode {
    /// The wire encoding of the mode used by the ibus protocol.
    pub fn code(&self) -> (r: u32)
        ensures
            r == (match self {
                IBusPreeditFocusMode::Clear => 0u32,
                IBusPreeditFocusMode::Commit => 1u32,
            }),
    {
        match self {
            IBusPreeditFocusMode::Clear => 0,
            IBusPreeditFocusMode::Commit => 1,
        }
    }
}

} // verus!
