//! Rows that carry the key under which they are stored.

use core::ops::Deref;

use vstd::prelude::*;

verus! {

/// A value together with the key of the row that holds it.
#[derive(Debug, Clone)]
pub struct WithId<T, Id = i32> {
    pub inner: T,
    pub id: Id,
}

impl<T, Id> Deref for WithId<T, Id> {
    type Target = T;

    fn deref(&self) -> (res: &T)
        ensures
            res == &self.inner,
    {
        &self.inner
    }
}

} // verus!
