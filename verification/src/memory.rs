//! Buffers of bytes together with the part of them that is in use.
use core::ops::Range;
use vstd::prelude::*;

verus! {

/// A buffer and the range of it that has not been read yet.
///
/// The first field is the memory, the second the unread range of it.
#[derive(Debug, PartialEq, Eq)]
pub struct AllocatedMemoryRange(pub Vec<u8>, pub Range<usize>);

impl AllocatedMemoryRange {
    /// The range lies within the memory.
    pub open spec fn wf(&self) -> bool {
        self.1.start <= self.1.end <= self.0@.len()
    }

    /// The bytes in range.
    pub open spec fn unread(&self) -> Seq<u8> {
        self.0@.subrange(self.1.start as int, self.1.end as int)
    }

    /// There is no memory, and so nothing in range.
    pub open spec fn is_vacant(&self) -> bool {
        &&& self.0@ == Seq::<u8>::empty()
        &&& self.1.start == 0
        &&& self.1.end == 0
    }

    /// Every byte of the range has been read, and there is memory to give back.
    pub open spec fn is_spent(&self) -> bool {
        &&& self.unread().len() == 0
        &&& self.0@.len() != 0
    }

    /// The bytes in range.
    pub fn slice(&self) -> (bytes: &[u8])
        requires
            self.wf(),
        ensures
            bytes@ == self.unread(),
    {
        self.0.as_slice().split_at(self.1.end).0.split_at(self.1.start).1
    }
}

impl Default for AllocatedMemoryRange {
    /// The range of no bytes over no memory.
    fn default() -> (range: Self)
        ensures
            range.is_vacant(),
    {
        AllocatedMemoryRange(Vec::new(), 0..0)
    }
}

/// A buffer and how many bytes at its front are in use.
#[derive(Debug, PartialEq, Eq)]
pub struct AllocatedMemoryPrefix(pub Vec<u8>, pub usize);

impl AllocatedMemoryPrefix {
    /// There is no memory, and so nothing in use.
    pub open spec fn is_vacant(&self) -> bool {
        &&& self.0@ == Seq::<u8>::empty()
        &&& self.1 == 0
    }
}

impl Default for AllocatedMemoryPrefix {
    /// The prefix of no bytes over no memory.
    fn default() -> (prefix: Self)
        ensures
            prefix.is_vacant(),
    {
        AllocatedMemoryPrefix(Vec::new(), 0)
    }
}

/// Puts `value` in the place of `dest` and returns what was there.
pub(crate) fn replace<T>(dest: &mut T, value: T) -> (previous: T)
    ensures
        previous == *old(dest),
        *final(dest) == value,
{
    let mut previous: T = value;
    core::mem::swap(dest, &mut previous);
    previous
}

} // verus!
