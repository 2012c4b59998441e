//! Byte-size reporting for diagnostics.

use vstd::prelude::*;

verus! {

/// How many bytes a value accounts for, heap storage included. Implementors
/// with owned heap data add it to their in-place size; plain values report
/// their in-place size alone.
pub trait TotalSize {
    /// The value's total size in bytes.
    fn total_size(&self) -> usize;
}

impl TotalSize for u8 {
    fn total_size(&self) -> (r: usize)
        ensures
            r == vstd::layout::size_of::<u8>(),
    {
        core::mem::size_of::<u8>()
    }
}

impl TotalSize for i32 {
    fn total_size(&self) -> (r: usize)
        ensures
            r == vstd::layout::size_of::<i32>(),
    {
        core::mem::size_of::<i32>()
    }
}

impl TotalSize for u32 {
    fn total_size(&self) -> (r: usize)
        ensures
            r == vstd::layout::size_of::<u32>(),
    {
        core::mem::size_of::<u32>()
    }
}

impl TotalSize for u64 {
    fn total_size(&self) -> (r: usize)
        ensures
            r == vstd::layout::size_of::<u64>(),
    {
        core::mem::size_of::<u64>()
    }
}

impl TotalSize for String {
    fn total_size(&self) -> (r: usize)
        ensures
            r == vstd::layout::size_of::<String>(),
    {
        core::mem::size_of::<String>()
    }
}

} // verus!
