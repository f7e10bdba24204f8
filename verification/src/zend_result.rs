//! The engine's two-valued result code.

use vstd::prelude::*;

verus! {

/// A native call's result code.
pub enum ZResult {
    /// The operation succeeded.
    Success,
    /// The operation failed.
    Failure,
}

impl ZResult {
    /// The code the native ABI carries: zero for success, minus one for
    /// failure.
    pub fn to_raw(&self) -> (r: i32)
        ensures
            self is Success ==> r == 0,
            self is Failure ==> r == -1,
    {
        match self {
            ZResult::Success => 0,
            ZResult::Failure => -1,
        }
    }

    /// Whether this is the success code.
    pub fn is_success(&self) -> (r: bool)
        ensures
            r == (self is Success),
    {
        matches!(self, ZResult::Success)
    }
}

} // verus!
