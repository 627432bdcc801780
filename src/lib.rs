use vstd::prelude::*;

pub mod cpu;
pub mod memory;

verus! {

/// Lifts any value into `Result` or `Option`, for use in expression chains.
pub trait Wrappable where Self: Sized {
    fn wrap_ok<E>(self) -> (r: Result<Self, E>)
        ensures
            r == Ok::<Self, E>(self),
    {
        Ok(self)
    }

    fn wrap_err<T>(self) -> (r: Result<T, Self>)
        ensures
            r == Err::<T, Self>(self),
    {
        Err(self)
    }

    fn wrap_some(self) -> (r: Option<Self>)
        ensures
            r == Some(self),
    {
        Some(self)
    }
}

impl<T> Wrappable for T {}

} // verus!
