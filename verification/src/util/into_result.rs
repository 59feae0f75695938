//! Results of tasks that may or may not fail.

use vstd::prelude::*;

verus! {

/// What can be taken as a result.
pub trait IntoResult<T, E>: Sized {
    /// The result that a value stands for.
    spec fn result(self) -> Result<T, E>;

    /// The result that this value stands for.
    fn into_result(self) -> (res: Result<T, E>)
        ensures
            res == self.result(),
    ;
}

/// A task without a result has not failed.
impl<E> IntoResult<(), E> for () {
    open spec fn result(self) -> Result<(), E> {
        Ok(())
    }

    fn into_result(self) -> (res: Result<(), E>) {
        Ok(self)
    }
}

/// A result stands for itself.
impl<T, E> IntoResult<T, E> for Result<T, E> {
    open spec fn result(self) -> Result<T, E> {
        self
    }

    fn into_result(self) -> (res: Result<T, E>) {
        self
    }
}

} // verus!
