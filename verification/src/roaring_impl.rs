//! `GetSize` for the bitmaps of `roaring`.
//!
//! A `RoaringBitmap` keeps its values in containers of three kinds (array,
//! bitset and run) in a private vector; `RoaringBitmap::statistics` reports
//! the bytes that the containers of each kind take, and those are summed.
//! Not counted: the slots of the vector of containers, whose type is
//! private to the crate, and the key and kind of each container.
//!
//! A `RoaringTreemap` keeps a map from the high 32 bits of its values to
//! bitmaps; `RoaringTreemap::bitmaps` walks it. Each entry counts the size
//! of its key and the size of its bitmap; the nodes of the map are not
//! counted.
use roaring::{RoaringBitmap, RoaringTreemap};
use vstd::prelude::*;

use crate::get_size::{total_size, GetSize};
use crate::sizes::{add_sizes, roaring_bitmap_heap, roaring_bitmap_heap_size, saturate, seq_sum, sum_sizes};
use crate::tracker::GetSizeTracker;

verus! {

#[verifier::external_type_specification]
#[verifier::external_body]
pub struct ExRoaringBitmap(RoaringBitmap);

#[verifier::external_type_specification]
#[verifier::external_body]
pub struct ExRoaringTreemap(RoaringTreemap);

/// The bytes that the array, the bitset and the run containers of a bitmap
/// take, in that order.
pub uninterp spec fn roaring_container_bytes(b: RoaringBitmap) -> (u64, u64, u64);

/// The entries of a treemap, in ascending order of their keys: the high 32
/// bits of the values, and the bitmap of the low 32 bits.
pub uninterp spec fn roaring_treemap_bitmaps(t: RoaringTreemap) -> Seq<(u32, RoaringBitmap)>;

/// Calls `RoaringBitmap::statistics` and keeps the bytes of the array, the
/// bitset and the run containers.
#[verifier::external_body]
fn container_bytes(b: &RoaringBitmap) -> (r: (u64, u64, u64))
    ensures
        r == roaring_container_bytes(*b),
{
    let s = b.statistics();
    (s.n_bytes_array_containers, s.n_bytes_bitset_containers, s.n_bytes_run_containers)
}

/// Calls `RoaringTreemap::bitmaps` and collects the entries, in order.
#[verifier::external_body]
fn treemap_bitmaps(t: &RoaringTreemap) -> (r: Vec<(u32, &RoaringBitmap)>)
    ensures
        r@.len() == roaring_treemap_bitmaps(*t).len(),
        forall|i: int|
            0 <= i < r@.len() ==> {
                &&& (#[trigger] r@[i]).0 == roaring_treemap_bitmaps(*t)[i].0
                &&& *r@[i].1 == roaring_treemap_bitmaps(*t)[i].1
            },
{
    t.bitmaps().collect()
}

/// The heap size of a bitmap: the bytes of its containers.
pub open spec fn bitmap_heap(b: RoaringBitmap) -> usize {
    let (array, bitset, run) = roaring_container_bytes(b);
    saturate(roaring_bitmap_heap(array, bitset, run))
}

/// The size that an entry of a treemap counts: the size of its key plus
/// the stack and heap size of its bitmap.
pub open spec fn treemap_entry_size(bitmap: RoaringBitmap) -> usize {
    saturate(
        vstd::layout::size_of::<u32>() + saturate(
            vstd::layout::size_of::<RoaringBitmap>() + bitmap_heap(bitmap),
        ),
    )
}

/// The sizes that the entries of a treemap count, in order.
pub open spec fn treemap_entry_sizes(entries: Seq<(u32, RoaringBitmap)>) -> Seq<usize> {
    entries.map_values(|e: (u32, RoaringBitmap)| treemap_entry_size(e.1))
}

/// The heap size of a treemap: the sum of what its entries count.
pub open spec fn treemap_heap(t: RoaringTreemap) -> usize {
    saturate(seq_sum(treemap_entry_sizes(roaring_treemap_bitmaps(t))) as int)
}

impl GetSize for RoaringBitmap {
    open spec fn reports_heap(&self, size: usize) -> bool {
        size == bitmap_heap(*self)
    }

    open spec fn hands_tracker_back() -> bool {
        true
    }

    fn get_heap_size_with_tracker<T: GetSizeTracker>(&self, tracker: T) -> (r: (usize, T))
        ensures
            r.0 == bitmap_heap(*self),
            r.1 == tracker,
    {
        let (array, bitset, run) = container_bytes(self);
        (roaring_bitmap_heap_size(array, bitset, run), tracker)
    }
}

impl GetSize for RoaringTreemap {
    open spec fn reports_heap(&self, size: usize) -> bool {
        size == treemap_heap(*self)
    }

    open spec fn hands_tracker_back() -> bool {
        true
    }

    fn get_heap_size_with_tracker<Tr: GetSizeTracker>(&self, tracker: Tr) -> (r: (usize, Tr))
        ensures
            r.0 == treemap_heap(*self),
            r.1 == tracker,
    {
        let ghost start = tracker;
        let entries = treemap_bitmaps(self);
        let ghost contents = roaring_treemap_bitmaps(*self);
        let mut sizes: Vec<usize> = Vec::new();
        let mut tracker = tracker;
        let mut i: usize = 0;
        while i < entries.len()
            invariant
                i <= entries@.len(),
                entries@.len() == contents.len(),
                forall|j: int|
                    0 <= j < entries@.len() ==> {
                        &&& (#[trigger] entries@[j]).0 == contents[j].0
                        &&& *entries@[j].1 == contents[j].1
                    },
                sizes@ == treemap_entry_sizes(contents).take(i as int),
                tracker == start,
            decreases entries@.len() - i,
        {
            let (key, bitmap) = entries[i];
            let (key_heap, next) = key.get_heap_size_with_tracker(tracker);
            let key_size = total_size(u32::get_stack_size(), key_heap);
            let (bitmap_heap_size, next) = bitmap.get_heap_size_with_tracker(next);
            let bitmap_size = total_size(RoaringBitmap::get_stack_size(), bitmap_heap_size);
            tracker = next;
            sizes.push(add_sizes(key_size, bitmap_size));
            proof {
                assert(entries@[i as int].0 == contents[i as int].0);
                assert(treemap_entry_sizes(contents).take(i + 1) =~= treemap_entry_sizes(
                    contents,
                ).take(i as int).push(treemap_entry_size(contents[i as int].1)));
            }
            i = i + 1;
        }
        assert(treemap_entry_sizes(contents).take(i as int) =~= treemap_entry_sizes(contents));
        (sum_sizes(sizes.as_slice()), tracker)
    }
}

} // verus!
