//! The access points found by a scan, kept in a `heapless::Vec` of
//! capacity 32 and reached through the wrappers below.
use vstd::prelude::*;

use super::ScanResult;

verus! {

#[verifier::external_type_specification]
#[verifier::external_body]
#[verifier::reject_recursive_types(T)]
pub struct ExHeaplessVec<T, const N: usize>(heapless::Vec<T, N>);

/// The results held, in insertion order.
pub uninterp spec fn scan_list_items(list: heapless::Vec<ScanResult, 32>) -> Seq<ScanResult>;

/// `heapless::Vec::new`: an empty vector.
#[verifier::external_body]
pub(crate) fn scan_list_new() -> (list: heapless::Vec<ScanResult, 32>)
    ensures
        scan_list_items(list) == Seq::<ScanResult>::empty(),
{
    heapless::Vec::new()
}

/// `heapless::Vec::push`: appends while fewer than 32 items are held, and
/// otherwise hands the item back (`Err`) leaving the vector unchanged.
#[verifier::external_body]
pub(crate) fn scan_list_push(list: &mut heapless::Vec<ScanResult, 32>, item: ScanResult) -> (pushed: bool)
    requires
        scan_list_items(*old(list)).len() <= 32,
    ensures
        scan_list_items(*old(list)).len() < 32 ==> pushed && scan_list_items(*final(list))
            == scan_list_items(*old(list)).push(item),
        scan_list_items(*old(list)).len() >= 32 ==> !pushed && scan_list_items(*final(list))
            == scan_list_items(*old(list)),
{
    list.push(item).is_ok()
}

/// `heapless::Vec::clear`: removes every item.
#[verifier::external_body]
pub(crate) fn scan_list_clear(list: &mut heapless::Vec<ScanResult, 32>)
    ensures
        scan_list_items(*final(list)) == Seq::<ScanResult>::empty(),
{
    list.clear()
}

/// `len` of the slice a `heapless::Vec` dereferences to (`Deref<Target =
/// [T]>` over the items held): the number of items held.
#[verifier::external_body]
pub(crate) fn scan_list_len(list: &heapless::Vec<ScanResult, 32>) -> (n: usize)
    ensures
        n == scan_list_items(*list).len(),
{
    list.len()
}

/// Indexing the slice a `heapless::Vec` dereferences to: a copy of item `i`.
#[verifier::external_body]
pub(crate) fn scan_list_get(list: &heapless::Vec<ScanResult, 32>, i: usize) -> (item: ScanResult)
    requires
        i < scan_list_items(*list).len(),
    ensures
        item == scan_list_items(*list)[i as int],
{
    list[i]
}

} // verus!
