//! The outcome of one step of an operation that may have to wait.

use vstd::prelude::*;

verus! {

/// Either the operation has completed with a value, or it cannot complete yet.
#[derive(Debug)]
pub enum Poll<T> {
    /// The operation completed.
    Ready(T),
    /// The operation has to wait; nothing was changed.
    Pending,
}

impl<T> Poll<T> {
    /// Whether the operation completed.
    pub fn is_ready(&self) -> (b: bool)
        ensures
            b == (self is Ready),
    {
        match self {
            Poll::Ready(_) => true,
            Poll::Pending => false,
        }
    }

    /// Whether the operation has to wait.
    pub fn is_pending(&self) -> (b: bool)
        ensures
            b == (self is Pending),
    {
        match self {
            Poll::Ready(_) => false,
            Poll::Pending => true,
        }
    }
}

} // verus!
