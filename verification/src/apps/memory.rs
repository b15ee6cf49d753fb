//! The `mem` command: the sizes it reports about the memory layout.
use vstd::prelude::*;

verus! {

/// The boundaries of the memory regions, in bytes.
#[derive(Clone, Copy, Debug, PartialEq, Eq, Structural)]
pub struct MemLayout {
    pub ram_start: usize,
    pub ram_end: usize,
    pub heap_end: usize,
    pub heap_size: usize,
    pub stack_pool_start: usize,
    pub stack_pool_size: usize,
    pub reserve_size: usize,
}

/// The sizes reported, in whole KiB.
#[derive(Clone, Copy, Debug, PartialEq, Eq, Structural)]
pub struct MemSummary {
    pub ram_kb: usize,
    pub heap_kb: usize,
    pub stack_pool_kb: usize,
    pub reserve_kb: usize,
    /// The unused space between the heap and the stack pool.
    pub gap_kb: usize,
}

/// The sizes of a layout whose RAM ends after it starts and whose stack
/// pool starts at or after the heap's end.
pub fn memory_summary(l: &MemLayout) -> (s: MemSummary)
    requires
        l.ram_start <= l.ram_end,
        l.heap_end <= l.stack_pool_start,
    ensures
        s.ram_kb == (l.ram_end - l.ram_start) / 1024,
        s.heap_kb == l.heap_size / 1024,
        s.stack_pool_kb == l.stack_pool_size / 1024,
        s.reserve_kb == l.reserve_size / 1024,
        s.gap_kb == (l.stack_pool_start - l.heap_end) / 1024,
{
    MemSummary {
        ram_kb: (l.ram_end - l.ram_start) / 1024,
        heap_kb: l.heap_size / 1024,
        stack_pool_kb: l.stack_pool_size / 1024,
        reserve_kb: l.reserve_size / 1024,
        gap_kb: (l.stack_pool_start - l.heap_end) / 1024,
    }
}

} // verus!
