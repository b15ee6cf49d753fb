use minirtos::apps::memory::{memory_summary, MemLayout, MemSummary};

#[test]
fn memory_sizes_in_kib() {
    let l = MemLayout {
        ram_start: 0x2000_0000,
        ram_end: 0x2008_2000,
        heap_end: 0x2004_0000,
        heap_size: 0x2_0000,
        stack_pool_start: 0x2006_0000,
        stack_pool_size: 0x1_8000,
        reserve_size: 0x2000,
    };
    assert_eq!(
        memory_summary(&l),
        MemSummary { ram_kb: 520, heap_kb: 128, stack_pool_kb: 96, reserve_kb: 8, gap_kb: 128 }
    );
}
