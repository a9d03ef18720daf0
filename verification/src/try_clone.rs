use vstd::prelude::*;

use crate::error::VecError;
use crate::vec::Vec;

verus! {

/// Fallible deep duplication: the per-element duplicate capability that
/// consumers implement for their own element types. `duplicates` says what a
/// successful duplicate is guaranteed to satisfy; a failed duplication
/// reports an error and promises nothing.
pub trait TryClone: Sized {
    /// The relation a duplicate produced by `try_clone` bears to its source.
    /// Implementations that leave it at the default promise nothing of their
    /// duplicates.
    open spec fn duplicates(&self, other: &Self) -> bool {
        true
    }

    /// Attempt to duplicate the value.
    fn try_clone(&self) -> (r: Result<Self, VecError>)
        ensures
            r matches Ok(c) ==> self.duplicates(&c);
}

impl TryClone for u8 {
    open spec fn duplicates(&self, other: &Self) -> bool {
        *self == *other
    }

    fn try_clone(&self) -> (r: Result<Self, VecError>)
        ensures
            r is Ok,
    {
        Ok(*self)
    }
}

impl TryClone for u32 {
    open spec fn duplicates(&self, other: &Self) -> bool {
        *self == *other
    }

    fn try_clone(&self) -> (r: Result<Self, VecError>)
        ensures
            r is Ok,
    {
        Ok(*self)
    }
}

impl TryClone for u64 {
    open spec fn duplicates(&self, other: &Self) -> bool {
        *self == *other
    }

    fn try_clone(&self) -> (r: Result<Self, VecError>)
        ensures
            r is Ok,
    {
        Ok(*self)
    }
}

impl TryClone for usize {
    open spec fn duplicates(&self, other: &Self) -> bool {
        *self == *other
    }

    fn try_clone(&self) -> (r: Result<Self, VecError>)
        ensures
            r is Ok,
    {
        Ok(*self)
    }
}

impl TryClone for i64 {
    open spec fn duplicates(&self, other: &Self) -> bool {
        *self == *other
    }

    fn try_clone(&self) -> (r: Result<Self, VecError>)
        ensures
            r is Ok,
    {
        Ok(*self)
    }
}

impl TryClone for bool {
    open spec fn duplicates(&self, other: &Self) -> bool {
        *self == *other
    }

    fn try_clone(&self) -> (r: Result<Self, VecError>)
        ensures
            r is Ok,
    {
        Ok(*self)
    }
}

/// Fallible deep duplication of a whole array: a new array with the same
/// capacity whose live elements are duplicates of the source's, in index
/// order. If one element fails to duplicate, the elements already duplicated
/// are destructed, the new allocation is released, and the element's error is
/// propagated; the source is never affected.
impl<T: TryClone> TryClone for Vec<T> {
    open spec fn duplicates(&self, other: &Self) -> bool {
        &&& other@.len() == self@.len()
        &&& forall|i: int| 0 <= i < self@.len() ==> #[trigger] self@[i].duplicates(&other@[i])
        &&& other.spec_capacity() == self.spec_capacity()
        &&& !other.spec_zero_alloc()
    }

    fn try_clone(&self) -> (r: Result<Self, VecError>)
        ensures
            self@.len() == 0 && self.spec_capacity() == 0 ==> r is Ok,
    {
        proof {
            self.lemma_fields();
        }
        let mut v = match Self::with_capacity(self.capacity) {
            Ok(v) => v,
            Err(e) => {
                return Err(e);
            },
        };
        proof {
            v.lemma_fields();
        }
        let mut i: usize = 0;
        while i < self.buf.len()
            invariant
                i <= self@.len(),
                v.buf@.len() == i,
                forall|j: int| 0 <= j < i ==> #[trigger] self@[j].duplicates(&v.buf@[j]),
                v.capacity == self.capacity,
                !v.zero_alloc,
                self@ == self.buf@,
            decreases self@.len() - i,
        {
            match self.buf[i].try_clone() {
                Ok(c) => {
                    v.buf.push(c);
                },
                Err(e) => {
                    return Err(e);
                },
            }
            i = i + 1;
        }
        proof {
            v.lemma_fields();
        }
        Ok(v)
    }
}

} // verus!
