//! A growable, contiguous, index-addressable array for environments without a
//! hosted runtime: every operation keeps the bookkeeping invariants (live
//! elements stay within the backing capacity, growth follows a power-of-two
//! policy) that a managed runtime would otherwise supply.

mod error;
mod growth;
mod iter;
mod try_clone;
mod vec;

pub use error::VecError;
pub use growth::VEC_MIN_SIZE;
pub use growth::grow_target;
pub use growth::is_power_of_two;
pub use growth::lemma_grow_target_ignores_flag;
pub use growth::lemma_grow_target_shape;
pub use iter::VecIterator;
pub use iter::VecRefIterator;
pub use iter::VecRefMutIterator;
pub use try_clone::TryClone;
pub use vec::Vec;
pub use vec::lemma_clear_then_push_matches_fresh;
pub use vec::lemma_push_round_trip;
