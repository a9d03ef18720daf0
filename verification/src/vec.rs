use vstd::prelude::*;

use crate::error::VecError;
use crate::growth::grow_target;
use crate::growth::grow_target_exec;
use crate::growth::lemma_grow_target_shape;
use crate::growth::VEC_MIN_SIZE;
use vstd::std_specs::cmp::PartialEqSpec;

verus! {

/// A growable, contiguous, index-addressable sequence backed by a single
/// heap allocation of `capacity` slots, of which the first `len` hold live
/// elements. Capacity grows in powers of two (floored at `VEC_MIN_SIZE`) and
/// is never reduced by `truncate`; `clear` releases the allocation outright.
///
/// Recoverable failures (allocation, invalid arguments) are reported as
/// `VecError`; out-of-bounds element or range access is a programmer defect
/// and is ruled out by the preconditions of the accessors.
pub struct Vec<T> {
    pub(crate) buf: std::vec::Vec<T>,
    pub(crate) capacity: usize,
    pub(crate) zero_alloc: bool,
}

impl<T> View for Vec<T> {
    type V = Seq<T>;

    closed spec fn view(&self) -> Seq<T> {
        self.buf@
    }
}

impl<T> Vec<T> {
    /// Number of slots currently backed by the allocation.
    pub closed spec fn spec_capacity(&self) -> nat {
        self.capacity as nat
    }

    /// Whether a zero-slot request is treated as a genuine zero-size
    /// allocation rather than as "no buffer".
    pub closed spec fn spec_zero_alloc(&self) -> bool {
        self.zero_alloc
    }

    /// The bookkeeping invariant: every live element sits in an allocated slot.
    pub open spec fn wf(&self) -> bool {
        self@.len() <= self.spec_capacity()
    }

    /// Crate-internal bridge between the abstract state and the fields.
    pub(crate) proof fn lemma_fields(&self)
        ensures
            self@ == self.buf@,
            self.spec_capacity() == self.capacity as nat,
            self.spec_zero_alloc() == self.zero_alloc,
    {
    }

    /// An empty array owning no allocation.
    pub fn new() -> (v: Self)
        ensures
            v.wf(),
            v@ == Seq::<T>::empty(),
            v.spec_capacity() == 0,
            !v.spec_zero_alloc(),
    {
        Vec { buf: std::vec::Vec::new(), capacity: 0, zero_alloc: false }
    }

    /// An empty array whose allocation eagerly backs exactly `capacity`
    /// slots; `Err(Alloc)` when the allocator refuses the request.
    pub fn with_capacity(capacity: usize) -> (r: Result<Self, VecError>)
        ensures
            r matches Ok(v) ==> {
                &&& v.wf()
                &&& v@ == Seq::<T>::empty()
                &&& v.spec_capacity() == capacity as nat
                &&& !v.spec_zero_alloc()
            },
            r is Err ==> r == Err::<Self, VecError>(VecError::Alloc) && capacity > 0,
    {
        if capacity == 0 {
            return Ok(Self::new());
        }
        let mut buf = std::vec::Vec::new();
        match buf.try_reserve(capacity) {
            Ok(()) => Ok(Vec { buf, capacity, zero_alloc: false }),
            Err(_) => Err(VecError::Alloc),
        }
    }

    /// Opts in (or out of) zero-allocation mode: afterwards a zero-slot
    /// growth request keeps (or stops keeping) a genuine zero-size allocation.
    pub fn allow_zero_alloc(&mut self, v: bool)
        requires
            old(self).wf(),
        ensures
            final(self).wf(),
            final(self)@ == old(self)@,
            final(self).spec_capacity() == old(self).spec_capacity(),
            final(self).spec_zero_alloc() == v,
    {
        self.zero_alloc = v;
    }

    /// Number of live elements.
    pub fn len(&self) -> (n: usize)
        ensures
            n == self@.len(),
    {
        self.buf.len()
    }

    /// Number of slots currently backed by the allocation.
    pub fn capacity(&self) -> (n: usize)
        ensures
            n as nat == self.spec_capacity(),
    {
        self.capacity
    }

    /// The capacity manager: ensure the allocation backs exactly
    /// `grow_target(needed)` slots, preserving the live elements that still
    /// fit. On allocation failure the array collapses to empty with no
    /// allocation, and `Err(Alloc)` is reported.
    pub(crate) fn resize_impl(&mut self, needed: usize) -> (r: Result<(), VecError>)
        requires
            old(self).wf(),
        ensures
            final(self).wf(),
            final(self).spec_zero_alloc() == old(self).spec_zero_alloc(),
            r is Ok ==> {
                &&& final(self).spec_capacity() == grow_target(
                    needed as nat,
                    old(self).spec_zero_alloc(),
                )
                &&& final(self)@ == old(self)@.take(
                    if old(self)@.len() <= final(self).spec_capacity() {
                        old(self)@.len() as int
                    } else {
                        final(self).spec_capacity() as int
                    },
                )
            },
            grow_target(needed as nat, old(self).spec_zero_alloc()) == old(self).spec_capacity()
                ==> r is Ok,
            r is Err ==> {
                &&& r == Err::<(), VecError>(VecError::Alloc)
                &&& final(self).spec_capacity() == 0
                &&& final(self)@ == Seq::<T>::empty()
                &&& grow_target(needed as nat, old(self).spec_zero_alloc()) != 0
            },
    {
        let target = match grow_target_exec(needed, self.zero_alloc) {
            Some(t) => t,
            None => {
                proof {
                    lemma_grow_target_shape(needed as nat, self.zero_alloc);
                }
                self.buf = std::vec::Vec::new();
                self.capacity = 0;
                return Err(VecError::Alloc);
            },
        };
        if target == self.capacity {
            proof {
                assert(self@.take(self@.len() as int) =~= self@);
            }
            return Ok(());
        }
        if target < self.buf.len() {
            self.buf.truncate(target);
        }
        if target > self.capacity {
            let additional = target - self.buf.len();
            match self.buf.try_reserve(additional) {
                Ok(()) => {},
                Err(_) => {
                    self.buf = std::vec::Vec::new();
                    self.capacity = 0;
                    return Err(VecError::Alloc);
                },
            }
        }
        self.capacity = target;
        proof {
            if old(self)@.len() <= target {
                assert(self@ =~= old(self)@.take(old(self)@.len() as int));
            } else {
                assert(self@ =~= old(self)@.take(target as int));
            }
        }
        Ok(())
    }

    /// Append `value`, growing the backing allocation first when it is full.
    /// Succeeds whenever a free slot already exists; on allocation failure the
    /// array collapses to empty, `value` is consumed, and `Err(Alloc)` is
    /// reported.
    pub fn push(&mut self, value: T) -> (r: Result<(), VecError>)
        requires
            old(self).wf(),
        ensures
            final(self).wf(),
            final(self).spec_zero_alloc() == old(self).spec_zero_alloc(),
            r is Ok ==> {
                &&& final(self)@ == old(self)@.push(value)
                &&& final(self).spec_capacity() == (if old(self)@.len() + 1
                    <= old(self).spec_capacity() {
                    old(self).spec_capacity()
                } else {
                    grow_target(old(self)@.len() + 1, old(self).spec_zero_alloc())
                })
            },
            old(self)@.len() < old(self).spec_capacity() ==> r is Ok,
            r is Err ==> {
                &&& r == Err::<(), VecError>(VecError::Alloc)
                &&& final(self).spec_capacity() == 0
                &&& final(self)@ == Seq::<T>::empty()
            },
    {
        if self.buf.len() == usize::MAX {
            self.buf = std::vec::Vec::new();
            self.capacity = 0;
            return Err(VecError::Alloc);
        }
        let needed = self.buf.len() + 1;
        if needed > self.capacity {
            proof {
                lemma_grow_target_shape(needed as nat, self.zero_alloc);
            }
            match self.resize_impl(needed) {
                Ok(()) => {
                    proof {
                        assert(self@ =~= old(self)@);
                    }
                },
                Err(e) => {
                    return Err(e);
                },
            }
        }
        self.buf.push(value);
        Ok(())
    }

    /// Destruct the live elements at and past index `n` and set the length to
    /// `n`. The capacity is never reduced. `n` greater than the length is an
    /// invalid argument: the array is left unchanged and
    /// `Err(IllegalArgument)` is reported.
    pub fn truncate(&mut self, n: usize) -> (r: Result<(), VecError>)
        requires
            old(self).wf(),
        ensures
            final(self).wf(),
            final(self).spec_capacity() == old(self).spec_capacity(),
            final(self).spec_zero_alloc() == old(self).spec_zero_alloc(),
            n > old(self)@.len() <==> r == Err::<(), VecError>(VecError::IllegalArgument),
            n > old(self)@.len() ==> final(self)@ == old(self)@,
            n <= old(self)@.len() ==> r is Ok && final(self)@ == old(self)@.take(n as int),
    {
        if n > self.buf.len() {
            return Err(VecError::IllegalArgument);
        }
        self.buf.truncate(n);
        proof {
            assert(self@ =~= old(self)@.take(n as int));
        }
        Ok(())
    }

    /// Destruct all live elements and release the backing allocation: the
    /// array returns to the empty, no-allocation state.
    pub fn clear(&mut self)
        requires
            old(self).wf(),
        ensures
            final(self).wf(),
            final(self)@ == Seq::<T>::empty(),
            final(self).spec_capacity() == 0,
            final(self).spec_zero_alloc() == old(self).spec_zero_alloc(),
    {
        self.buf = std::vec::Vec::new();
        self.capacity = 0;
    }

    /// Read-only access to the live element at `index`. Out-of-bounds access
    /// is a programmer defect: callers must establish the bound.
    pub fn index(&self, index: usize) -> (r: &T)
        requires
            index < self@.len(),
        ensures
            *r == self@[index as int],
    {
        &self.buf[index]
    }

    /// Exclusive access to the live element at `index`. Out-of-bounds access
    /// is a programmer defect: callers must establish the bound.
    pub fn index_mut(&mut self, index: usize) -> (r: &mut T)
        requires
            old(self).wf(),
            index < old(self)@.len(),
        ensures
            final(self).wf(),
            *r == old(self)@[index as int],
            final(self)@ == old(self)@.update(index as int, *final(r)),
            final(self).spec_capacity() == old(self).spec_capacity(),
            final(self).spec_zero_alloc() == old(self).spec_zero_alloc(),
    {
        vstd::std_specs::vec::vec_index_mut(&mut self.buf, index)
    }

    /// Bounds-checked read-only view of the live range `start..end`.
    /// A violated bound is a programmer defect: callers must establish
    /// `start <= end <= length`.
    pub fn slice(&self, start: usize, end: usize) -> (r: &[T])
        requires
            start <= end <= self@.len(),
        ensures
            r@ == self@.subrange(start as int, end as int),
    {
        vstd::slice::slice_subrange(self.buf.as_slice(), start, end)
    }

    /// Read-only view of all live elements.
    pub fn slice_all(&self) -> (r: &[T])
        ensures
            r@ == self@,
    {
        let r = self.slice(0, self.len());
        proof {
            assert(self@.subrange(0, self@.len() as int) =~= self@);
        }
        r
    }

    /// Read-only view of the live range `0..end`.
    pub fn slice_to(&self, end: usize) -> (r: &[T])
        requires
            end <= self@.len(),
        ensures
            r@ == self@.subrange(0, end as int),
    {
        self.slice(0, end)
    }

    /// Read-only view of the live range `start..length`.
    pub fn slice_from(&self, start: usize) -> (r: &[T])
        requires
            start <= self@.len(),
        ensures
            r@ == self@.subrange(start as int, self@.len() as int),
    {
        self.slice(start, self.len())
    }

    /// Bounds-checked mutable view of the live range `start..end`.
    /// A violated bound is a programmer defect: callers must establish
    /// `start <= end <= length`.
    pub fn slice_mut(&mut self, start: usize, end: usize) -> (r: &mut [T])
        requires
            old(self).wf(),
            start <= end <= old(self)@.len(),
        ensures
            r@ == old(self)@.subrange(start as int, end as int),
            final(r)@.len() == end - start,
            final(self)@ == old(self)@.take(start as int) + final(r)@ + old(self)@.skip(end as int),
            final(self)@.len() == old(self)@.len(),
            final(self).wf(),
            final(self).spec_capacity() == old(self).spec_capacity(),
            final(self).spec_zero_alloc() == old(self).spec_zero_alloc(),
    {
        slice_range_mut(self.buf.as_mut_slice(), start, end)
    }

    /// Mutable view of all live elements.
    pub fn slice_mut_all(&mut self) -> (r: &mut [T])
        requires
            old(self).wf(),
        ensures
            r@ == old(self)@,
            final(r)@.len() == old(self)@.len(),
            final(self)@ == final(r)@,
            final(self).wf(),
            final(self).spec_capacity() == old(self).spec_capacity(),
            final(self).spec_zero_alloc() == old(self).spec_zero_alloc(),
    {
        let len = self.len();
        let r = self.slice_mut(0, len);
        proof {
            assert(old(self)@.subrange(0, old(self)@.len() as int) =~= old(self)@);
            assert(old(self)@.take(0) + final(r)@ + old(self)@.skip(old(self)@.len() as int)
                =~= final(r)@);
        }
        r
    }

    /// Mutable view of the live range `0..end`.
    pub fn slice_mut_to(&mut self, end: usize) -> (r: &mut [T])
        requires
            old(self).wf(),
            end <= old(self)@.len(),
        ensures
            r@ == old(self)@.subrange(0, end as int),
            final(r)@.len() == end as int,
            final(self)@ == final(r)@ + old(self)@.skip(end as int),
            final(self).wf(),
            final(self).spec_capacity() == old(self).spec_capacity(),
            final(self).spec_zero_alloc() == old(self).spec_zero_alloc(),
    {
        let r = self.slice_mut(0, end);
        proof {
            assert(old(self)@.take(0) + final(r)@ + old(self)@.skip(end as int) =~= final(r)@
                + old(self)@.skip(end as int));
        }
        r
    }

    /// Mutable view of the live range `start..length`.
    pub fn slice_mut_from(&mut self, start: usize) -> (r: &mut [T])
        requires
            old(self).wf(),
            start <= old(self)@.len(),
        ensures
            r@ == old(self)@.subrange(start as int, old(self)@.len() as int),
            final(r)@.len() == old(self)@.len() - start,
            final(self)@ == old(self)@.take(start as int) + final(r)@,
            final(self).wf(),
            final(self).spec_capacity() == old(self).spec_capacity(),
            final(self).spec_zero_alloc() == old(self).spec_zero_alloc(),
    {
        let len = self.len();
        let r = self.slice_mut(start, len);
        proof {
            assert(old(self)@.take(start as int) + final(r)@ + old(self)@.skip(
                old(self)@.len() as int,
            ) =~= old(self)@.take(start as int) + final(r)@);
        }
        r
    }
}

impl<T: Copy> Vec<T> {
    /// Append a copy of every element of `other`, growing the backing
    /// allocation first. On allocation failure the array collapses to empty
    /// and `Err(Alloc)` is reported.
    pub fn extend_from_slice(&mut self, other: &[T]) -> (r: Result<(), VecError>)
        requires
            old(self).wf(),
        ensures
            final(self).wf(),
            final(self).spec_zero_alloc() == old(self).spec_zero_alloc(),
            r is Ok ==> {
                &&& final(self)@ == old(self)@ + other@
                &&& final(self).spec_capacity() == grow_target(
                    old(self)@.len() + other@.len(),
                    old(self).spec_zero_alloc(),
                )
            },
            grow_target(old(self)@.len() + other@.len(), old(self).spec_zero_alloc())
                == old(self).spec_capacity() ==> r is Ok,
            r is Err ==> {
                &&& r == Err::<(), VecError>(VecError::Alloc)
                &&& final(self).spec_capacity() == 0
                &&& final(self)@ == Seq::<T>::empty()
            },
    {
        let len = self.buf.len();
        let other_len = other.len();
        if other_len > usize::MAX - len {
            proof {
                lemma_grow_target_shape(
                    old(self)@.len() + other@.len(),
                    old(self).spec_zero_alloc(),
                );
            }
            self.buf = std::vec::Vec::new();
            self.capacity = 0;
            return Err(VecError::Alloc);
        }
        let needed = len + other_len;
        proof {
            lemma_grow_target_shape(needed as nat, self.zero_alloc);
        }
        match self.resize_impl(needed) {
            Ok(()) => {},
            Err(e) => {
                return Err(e);
            },
        }
        proof {
            assert(self@ =~= old(self)@);
        }
        let mut i: usize = 0;
        while i < other_len
            invariant
                i <= other_len,
                other_len == other@.len(),
                self@ == old(self)@ + other@.take(i as int),
                self.spec_capacity() == grow_target(needed as nat, old(self).spec_zero_alloc()),
                self.spec_zero_alloc() == old(self).spec_zero_alloc(),
                needed == old(self)@.len() + other_len,
                needed as nat <= self.spec_capacity() || needed == 0,
            decreases other_len - i,
        {
            let e = *vstd::slice::slice_index_get(other, i);
            self.buf.push(e);
            proof {
                assert(self@ =~= old(self)@ + other@.take(i + 1));
            }
            i = i + 1;
        }
        proof {
            assert(old(self)@ + other@.take(other@.len() as int) =~= old(self)@ + other@);
        }
        Ok(())
    }

    /// Append a copy of every live element of `other`.
    pub fn extend(&mut self, other: &Vec<T>) -> (r: Result<(), VecError>)
        requires
            old(self).wf(),
        ensures
            final(self).wf(),
            final(self).spec_zero_alloc() == old(self).spec_zero_alloc(),
            r is Ok ==> {
                &&& final(self)@ == old(self)@ + other@
                &&& final(self).spec_capacity() == grow_target(
                    old(self)@.len() + other@.len(),
                    old(self).spec_zero_alloc(),
                )
            },
            grow_target(old(self)@.len() + other@.len(), old(self).spec_zero_alloc())
                == old(self).spec_capacity() ==> r is Ok,
            r is Err ==> {
                &&& r == Err::<(), VecError>(VecError::Alloc)
                &&& final(self).spec_capacity() == 0
                &&& final(self)@ == Seq::<T>::empty()
            },
    {
        self.extend_from_slice(other.slice_all())
    }

    /// Set the length to exactly `n`, growing the backing allocation first if
    /// needed. Slots revealed beyond the old length take the value `fill`,
    /// which stands for the zero-filled memory a fresh allocation exposes.
    /// On allocation failure the array collapses to empty and `Err(Alloc)` is
    /// reported.
    pub fn resize(&mut self, n: usize, fill: T) -> (r: Result<(), VecError>)
        requires
            old(self).wf(),
        ensures
            final(self).wf(),
            final(self).spec_zero_alloc() == old(self).spec_zero_alloc(),
            r is Ok ==> {
                &&& final(self)@.len() == n
                &&& final(self).spec_capacity() == grow_target(
                    n as nat,
                    old(self).spec_zero_alloc(),
                )
                &&& forall|i: int|
                    0 <= i < n ==> final(self)@[i] == (if i < old(self)@.len() {
                        old(self)@[i]
                    } else {
                        fill
                    })
            },
            grow_target(n as nat, old(self).spec_zero_alloc()) == old(self).spec_capacity()
                ==> r is Ok,
            r is Err ==> {
                &&& r == Err::<(), VecError>(VecError::Alloc)
                &&& final(self).spec_capacity() == 0
                &&& final(self)@ == Seq::<T>::empty()
            },
    {
        proof {
            lemma_grow_target_shape(n as nat, self.zero_alloc);
        }
        match self.resize_impl(n) {
            Ok(()) => {},
            Err(e) => {
                return Err(e);
            },
        }
        if n < self.buf.len() {
            self.buf.truncate(n);
        }
        while self.buf.len() < n
            invariant
                self@.len() <= n,
                self.spec_capacity() == grow_target(n as nat, old(self).spec_zero_alloc()),
                self.spec_zero_alloc() == old(self).spec_zero_alloc(),
                n as nat <= self.spec_capacity(),
                old(self)@.len() <= self@.len() || n <= self@.len(),
                forall|i: int|
                    0 <= i < self@.len() ==> self@[i] == (if i < old(self)@.len() {
                        old(self)@[i]
                    } else {
                        fill
                    }),
            decreases n - self@.len(),
        {
            self.buf.push(fill);
        }
        Ok(())
    }
}

/// Structural comparison: two arrays are equal exactly when their lengths
/// match and every corresponding pair of live elements compares equal, in
/// ascending index order with a short circuit at the first mismatch.
impl<T: PartialEq> PartialEq for Vec<T> {
    fn eq(&self, other: &Vec<T>) -> (r: bool) {
        if self.buf.len() != other.buf.len() {
            return false;
        }
        let mut i: usize = 0;
        while i < self.buf.len()
            invariant
                self@.len() == other@.len(),
                i <= self@.len(),
                <T as vstd::std_specs::cmp::PartialEqSpec>::obeys_eq_spec() ==> forall|j: int|
                    0 <= j < i ==> #[trigger] self@[j].eq_spec(&other@[j]),
            decreases self@.len() - i,
        {
            let ea = &self.buf[i];
            let eb = &other.buf[i];
            if !ea.eq(eb) {
                return false;
            }
            i = i + 1;
        }
        true
    }
}

impl<T: PartialEq> vstd::std_specs::cmp::PartialEqSpecImpl for Vec<T> {
    open spec fn obeys_eq_spec() -> bool {
        <T as vstd::std_specs::cmp::PartialEqSpec>::obeys_eq_spec()
    }

    open spec fn eq_spec(&self, other: &Vec<T>) -> bool {
        &&& self@.len() == other@.len()
        &&& forall|i: int| 0 <= i < self@.len() ==> #[trigger] self@[i].eq_spec(&other@[i])
    }
}

/// Why `clear()` then a successful `push(x)` behaves exactly like a fresh
/// array with one push: `clear` leaves the same abstract state that `new`
/// gives (no elements, no allocation) up to the zero-allocation flag, and
/// from that state the contract of `push` forces, on success, length 1,
/// contents `[x]` and capacity `VEC_MIN_SIZE`, whatever the flag says. The
/// `requires` are the post-`clear` (equally, post-`new`) state and `push`'s
/// own success clauses; success itself cannot be promised here, since the
/// allocator may refuse the growth.
pub proof fn lemma_clear_then_push_matches_fresh<T>(pre: Vec<T>, post: Vec<T>, x: T)
    requires
        pre@ == Seq::<T>::empty(),
        pre.spec_capacity() == 0,
        post@ == pre@.push(x),
        post.spec_capacity() == grow_target(pre@.len() + 1, pre.spec_zero_alloc()),
    ensures
        post@ =~= seq![x],
        post@.len() == 1,
        post@[0] == x,
        post.spec_capacity() == VEC_MIN_SIZE,
{
}

/// Push/read round trip: appending a value to the abstract contents leaves
/// every earlier element unchanged at its index and puts the new value at the
/// old length. Together with the contracts of `Vec::push` (the new contents
/// are `old@.push(value)`) and `Vec::index` (reading gives `self@[i]`), any
/// sequence of pushes reads back in order.
pub proof fn lemma_push_round_trip<T>(elems: Seq<T>, value: T)
    ensures
        elems.push(value).len() == elems.len() + 1,
        forall|i: int| 0 <= i < elems.len() ==> elems.push(value)[i] == elems[i],
        elems.push(value)[elems.len() as int] == value,
{
}

/// Relies on std's mutable range indexing `&mut s[start..end]`: the result is
/// a view of exactly that window, writes through it land in the window, and
/// the rest of the slice is untouched.
#[verifier::external_body]
fn slice_range_mut<'a, T>(s: &'a mut [T], start: usize, end: usize) -> (r: &'a mut [T])
    requires
        start <= end <= old(s)@.len(),
    ensures
        r@ == old(s)@.subrange(start as int, end as int),
        final(r)@.len() == end - start,
        final(s)@ == old(s)@.take(start as int) + final(r)@ + old(s)@.skip(end as int),
{
    &mut s[start..end]
}

} // verus!
