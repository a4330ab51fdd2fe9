//! Helpers for results.
use vstd::prelude::*;

verus! {

/// Takes the value out of a result whose two sides have the same type.
pub trait Open<A> where Self: Sized {
    fn open(self) -> A;
}

impl<A> Open<A> for Result<A, A> {
    /// The value, whichever side holds it.
    fn open(self) -> (a: A)
        ensures
            a == (match self {
                Ok(x) => x,
                Err(x) => x,
            }),
    {
        match self {
            Ok(x) => x,
            Err(x) => x,
        }
    }
}

} // verus!
