//! Reading the memory of the process whose stack is being walked.

use crate::error::WalkError;
use crate::tagged_word::{wrap, wrap_word};
use std::fmt::Debug;
use vstd::prelude::*;

verus! {

/// The address `offset` bytes away from `addr`, wrapping around at the width
/// of a word.
pub open spec fn displaced(addr: usize, offset: i64) -> usize {
    wrap(addr + offset)
}

/// The address `offset` bytes away from `addr`, wrapping around at the width
/// of a word.
pub fn offset_address(addr: usize, offset: i64) -> (r: usize)
    ensures
        r == displaced(addr, offset),
{
    wrap_word(addr as i128 + offset as i128)
}

/// A trait for things that can read memory from the process whose stack is
/// being walked.
///
/// When we are walking our own process's stack we can dereference pointers
/// directly, since we are in the same address space. If we are walking a
/// different process's stack then we would need to use OS-specific APIs to
/// read memory from that process's address space.
///
/// This trait can also be backed by a mock implementation during testing that
/// returns deterministic values.
///
/// A read must neither allocate nor block: it may run inside a signal
/// handler. It may fail, and a caller must be ready for that.
pub trait MemoryReader: Debug + Sized {
    /// Whether a read of the word at `addr` may return `outcome`.
    ///
    /// Memory changes under a reader, so this is a relation: it says which
    /// outcomes are possible, and a walk promises what follows from each. A
    /// reader that says nothing allows every outcome.
    open spec fn may_read(&self, addr: usize, outcome: Result<usize, WalkError>) -> bool {
        true
    }

    /// Read the word at the given address.
    fn read(&self, addr: usize) -> (outcome: Result<usize, WalkError>)
        ensures
            self.may_read(addr, outcome),
    ;

    /// Read the word at the given offset from the given address.
    fn read_offset(&self, addr: usize, offset: i64) -> (outcome: Result<usize, WalkError>)
        ensures
            self.may_read(displaced(addr, offset), outcome),
    {
        self.read(offset_address(addr, offset))
    }
}

} // verus!
