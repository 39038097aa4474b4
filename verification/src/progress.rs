//! The outcome of one non-blocking attempt.

use vstd::prelude::*;

verus! {

/// What one attempt at an operation came to: either it could not finish yet
/// and the task will be woken when trying again is worthwhile, or it finished
/// with a value.
#[derive(Debug)]
pub enum Progress<T> {
    /// The operation is suspended.
    Pending,
    /// The operation finished.
    Ready(T),
}

impl<T> Progress<T> {
    /// Whether the operation is still suspended.
    pub fn is_pending(&self) -> (b: bool)
        ensures
            b == (self is Pending),
    {
        match self {
            Progress::Pending => true,
            Progress::Ready(_) => false,
        }
    }

    /// Whether the operation finished.
    pub fn is_ready(&self) -> (b: bool)
        ensures
            b == (self is Ready),
    {
        match self {
            Progress::Pending => false,
            Progress::Ready(_) => true,
        }
    }
}

} // verus!
