//! The error taxonomy: storage failures, positional failures, and terminal
//! failures. Every operation either succeeds or surfaces one of these; the
//! session ends on the first error.

use vstd::prelude::*;

verus! {

/// What can go wrong anywhere in the system. `Storage` stands for a missing,
/// unreadable or malformed persistent file; `Index` for an operation against
/// an invalid position; `Terminal` for a failure to enter or restore the
/// terminal mode or to draw a frame.
#[derive(Clone, Copy, Debug, PartialEq, Eq, Structural)]
pub enum AppError {
    Storage,
    Index,
    Terminal,
}

impl AppError {
    /// A short human-readable description, for the shell message that ends
    /// the session.
    pub fn message(&self) -> (r: &'static str)
        ensures
            self is Storage ==> r@ == "storage failure: file missing, unreadable, or malformed"@,
            self is Index ==> r@ == "index failure: operation against an invalid position"@,
            self is Terminal ==> r@ == "terminal failure: could not enter or restore terminal mode"@,
    {
        match self {
            AppError::Storage => "storage failure: file missing, unreadable, or malformed",
            AppError::Index => "index failure: operation against an invalid position",
            AppError::Terminal => "terminal failure: could not enter or restore terminal mode",
        }
    }
}

} // verus!
