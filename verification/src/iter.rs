use vstd::prelude::*;

use crate::vec::Vec;

verus! {

/// Owning traversal: consumes the array and hands each live element out in
/// index order, transferring ownership one element at a time. Elements not
/// yet yielded when the iterator is discarded are destructed with it, exactly
/// once each; nothing is left behind to be destructed twice.
pub struct VecIterator<T> {
    pub(crate) rest: std::vec::Vec<T>,
}

impl<T> View for VecIterator<T> {
    type V = Seq<T>;

    closed spec fn view(&self) -> Seq<T> {
        self.rest@
    }
}

impl<T> VecIterator<T> {
    /// Move the next not-yet-yielded element out, front to back; `None` once
    /// every element has been handed over.
    pub fn next(&mut self) -> (r: Option<T>)
        ensures
            old(self)@.len() > 0 ==> {
                &&& r == Some(old(self)@[0])
                &&& final(self)@ == old(self)@.skip(1)
            },
            old(self)@.len() == 0 ==> r is None && final(self)@ == old(self)@,
    {
        if self.rest.len() > 0 {
            let e = self.rest.remove(0);
            proof {
                assert(self@ =~= old(self)@.skip(1));
            }
            Some(e)
        } else {
            None
        }
    }
}

/// Borrowing traversal: yields read-only references to the live elements in
/// index order without touching the array.
pub struct VecRefIterator<'a, T> {
    pub(crate) vec: &'a Vec<T>,
    pub(crate) index: usize,
}

impl<'a, T> View for VecRefIterator<'a, T> {
    type V = Seq<T>;

    closed spec fn view(&self) -> Seq<T> {
        self.vec@.skip(self.index as int)
    }
}

impl<'a, T> VecRefIterator<'a, T> {
    /// The cursor never points past the end of the borrowed array.
    pub closed spec fn wf(&self) -> bool {
        self.index <= self.vec@.len()
    }

    /// Reference to the next not-yet-visited element, front to back; `None`
    /// once every element has been visited.
    pub fn next(&mut self) -> (r: Option<&'a T>)
        requires
            old(self).wf(),
        ensures
            final(self).wf(),
            old(self)@.len() > 0 ==> {
                &&& r matches Some(e) && *e == old(self)@[0]
                &&& final(self)@ == old(self)@.skip(1)
            },
            old(self)@.len() == 0 ==> r is None && final(self)@ == old(self)@,
    {
        if self.index < self.vec.len() {
            let e = self.vec.index(self.index);
            self.index = self.index + 1;
            proof {
                assert(self@ =~= old(self)@.skip(1));
            }
            Some(e)
        } else {
            None
        }
    }
}

/// Mutable-borrowing traversal: yields exclusive references to the live
/// elements in index order; no other access to the array may be alive while
/// it runs. Writes through a yielded reference land at the yielded position;
/// the value the array holds once the traversal's borrow expires is the one
/// left by those writes.
pub struct VecRefMutIterator<'a, T> {
    pub(crate) vec: &'a mut Vec<T>,
    pub(crate) index: usize,
}

impl<'a, T> VecRefMutIterator<'a, T> {
    /// The cursor never points past the end of the borrowed array, which
    /// keeps its own invariant.
    pub closed spec fn wf(&self) -> bool {
        &&& self.index <= (*self.vec)@.len()
        &&& (*self.vec).wf()
    }

    /// Current contents of the traversed array, visited writes included.
    pub closed spec fn elems(&self) -> Seq<T> {
        (*self.vec)@
    }

    /// How many elements have been yielded so far.
    pub closed spec fn cursor(&self) -> int {
        self.index as int
    }

    /// Elements not yet yielded.
    pub open spec fn remaining(&self) -> Seq<T> {
        self.elems().skip(self.cursor())
    }

    /// Exclusive reference to the next not-yet-visited element, front to
    /// back; `None` once every element has been visited.
    pub fn next(&mut self) -> (r: Option<&mut T>)
        requires
            old(self).wf(),
        ensures
            final(self).wf(),
            old(self).remaining().len() == 0 ==> r is None && *final(self) == *old(self),
            old(self).remaining().len() > 0 ==> (r matches Some(e)
                && *e == old(self).remaining()[0]
                && final(self).cursor() == old(self).cursor() + 1
                && final(self).elems() == old(self).elems().update(old(self).cursor(), *final(e))),
    {
        let len = (&*self.vec).len();
        if self.index < len {
            let i = self.index;
            self.index = i + 1;
            let e = self.vec.index_mut(i);
            Some(e)
        } else {
            None
        }
    }
}

impl<T> Vec<T> {
    /// Start a mutable-borrowing traversal over the live elements.
    pub fn iter_mut(&mut self) -> (it: VecRefMutIterator<'_, T>)
        requires
            old(self).wf(),
        ensures
            it.wf(),
            it.cursor() == 0,
            it.elems() == old(self)@,
    {
        VecRefMutIterator { vec: self, index: 0 }
    }

    /// Start an owning traversal over the live elements, consuming the array.
    pub fn into_iter(self) -> (it: VecIterator<T>)
        ensures
            it@ == self@,
    {
        proof {
            self.lemma_fields();
        }
        VecIterator { rest: self.buf }
    }

    /// Start a borrowing traversal over the live elements.
    pub fn iter(&self) -> (it: VecRefIterator<'_, T>)
        ensures
            it.wf(),
            it@ == self@,
    {
        let it = VecRefIterator { vec: self, index: 0 };
        proof {
            assert(it@ =~= self@);
        }
        it
    }
}

} // verus!
