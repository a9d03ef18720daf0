use vstd::prelude::*;

verus! {

/// The recoverable failures an array operation can report. Out-of-bounds
/// element and range access is a programmer defect, not an error value: those
/// operations demand valid arguments from their callers instead.
#[derive(Clone, Copy, Debug, PartialEq, Eq, Structural)]
pub enum VecError {
    /// The allocator could not provide the requested backing memory.
    Alloc,
    /// An argument was outside the range the operation accepts.
    IllegalArgument,
}

} // verus!
