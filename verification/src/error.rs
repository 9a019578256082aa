//! Why a layout could not be had.

use vstd::prelude::*;

verus! {

/// The ways in which asking for the current layout fails.
#[derive(Clone, Copy, Debug, PartialEq, Eq)]
pub enum LayoutError {
    /// The system could not supply an active input source. Nothing was
    /// resolved and nothing was cached.
    InputSourceUnavailable,
}

impl LayoutError {
    /// A sentence for logs and messages.
    pub fn message(&self) -> (text: &'static str)
        ensures
            text@ == "no active keyboard input source is available"@,
    {
        match self {
            LayoutError::InputSourceUnavailable => "no active keyboard input source is available",
        }
    }
}

} // verus!
