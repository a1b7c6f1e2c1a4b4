//! The arithmetic of heap sizes: how the sizes of the parts of a value make
//! up the size of the whole, for each layout that the library accounts for.
//!
//! A size that does not fit in `usize` is reported as `usize::MAX`.
use vstd::prelude::*;

verus! {

/// `n` as a `usize`, or `usize::MAX` where `n` is larger.
pub open spec fn saturate(n: int) -> usize {
    if n > usize::MAX {
        usize::MAX
    } else if n < 0 {
        0
    } else {
        n as usize
    }
}

/// The sum of a sequence of sizes.
pub open spec fn seq_sum(s: Seq<usize>) -> nat
    decreases s.len(),
{
    if s.len() == 0 {
        0
    } else {
        seq_sum(s.drop_last()) + s.last() as nat
    }
}

/// The heap allocation of a buffer that has room for `capacity` items of
/// `item_size` bytes each.
pub open spec fn buffer_bytes(capacity: usize, item_size: usize) -> int {
    capacity as int * item_size as int
}

/// `a + b`, or `usize::MAX` where that does not fit.
pub fn add_sizes(a: usize, b: usize) -> (r: usize)
    ensures
        r == saturate(a + b),
{
    a.saturating_add(b)
}

/// The bytes of a buffer with room for `capacity` items of `item_size`
/// bytes each, or `usize::MAX` where that does not fit.
pub fn buffer_size(capacity: usize, item_size: usize) -> (r: usize)
    ensures
        r == saturate(buffer_bytes(capacity, item_size)),
{
    match capacity.checked_mul(item_size) {
        Some(n) => n,
        None => usize::MAX,
    }
}

/// The sum of the given sizes, or `usize::MAX` where it does not fit.
pub fn sum_sizes(sizes: &[usize]) -> (r: usize)
    ensures
        r == saturate(seq_sum(sizes@) as int),
{
    let mut total: usize = 0;
    let mut i: usize = 0;
    while i < sizes.len()
        invariant
            i <= sizes@.len(),
            total == saturate(seq_sum(sizes@.take(i as int)) as int),
        decreases sizes@.len() - i,
    {
        assert(sizes@.take(i + 1).drop_last() =~= sizes@.take(i as int));
        total = total.saturating_add(sizes[i]);
        i = i + 1;
    }
    assert(sizes@.take(sizes@.len() as int) =~= sizes@);
    total
}

} // verus!

verus! {

/// The heap size of a small vector: what its elements hold, plus its
/// buffer where the elements no longer fit inline.
pub open spec fn small_vec_heap(
    element_sizes: Seq<usize>,
    inline_size: usize,
    capacity: usize,
    item_size: usize,
) -> int {
    seq_sum(element_sizes) + if element_sizes.len() > inline_size {
        buffer_bytes(capacity, item_size)
    } else {
        0
    }
}

/// The heap size of a small vector whose elements hold `element_sizes`
/// bytes each, that keeps up to `inline_size` elements inline, and has room
/// for `capacity` elements of `item_size` bytes.
pub fn small_vec_heap_size(
    element_sizes: &[usize],
    inline_size: usize,
    capacity: usize,
    item_size: usize,
) -> (r: usize)
    ensures
        r == saturate(small_vec_heap(element_sizes@, inline_size, capacity, item_size)),
{
    let mut size = sum_sizes(element_sizes);
    if element_sizes.len() > inline_size {
        size = add_sizes(size, buffer_size(capacity, item_size));
    }
    size
}

} // verus!

verus! {

/// The heap size of a collection that keeps its items in one buffer with
/// room for `capacity` items of `item_size` bytes: what the items hold,
/// plus the buffer.
pub open spec fn buffered_heap(element_sizes: Seq<usize>, capacity: usize, item_size: usize) -> int {
    seq_sum(element_sizes) + buffer_bytes(capacity, item_size)
}

/// The heap size of a collection whose items hold `element_sizes` bytes
/// each and that keeps them in a buffer with room for `capacity` items of
/// `item_size` bytes.
pub fn buffered_heap_size(element_sizes: &[usize], capacity: usize, item_size: usize) -> (r: usize)
    ensures
        r == saturate(buffered_heap(element_sizes@, capacity, item_size)),
{
    add_sizes(sum_sizes(element_sizes), buffer_size(capacity, item_size))
}

/// The heap size of a collection whose items hold `element_sizes` bytes
/// each and whose own allocation takes `allocation` bytes.
pub fn allocated_heap_size(element_sizes: &[usize], allocation: usize) -> (r: usize)
    ensures
        r == saturate(seq_sum(element_sizes@) + allocation),
{
    add_sizes(sum_sizes(element_sizes), allocation)
}

/// The heap size of a thin vector with room for `capacity` items of
/// `item_size` bytes whose elements hold `element_sizes` bytes each: none
/// without a buffer; else what the elements hold, the header with the
/// length and the capacity, and the buffer.
pub open spec fn thin_vec_heap(element_sizes: Seq<usize>, capacity: usize, item_size: usize) -> int {
    if capacity == 0 {
        0
    } else {
        seq_sum(element_sizes) + 2 * vstd::layout::size_of::<usize>() + buffer_bytes(
            capacity,
            item_size,
        )
    }
}

/// The bytes of the header of a thin vector: its length and its capacity.
pub fn thin_vec_header_size() -> (r: usize)
    ensures
        r == 2 * vstd::layout::size_of::<usize>(),
{
    let word = core::mem::size_of::<usize>();
    assert(word * 8 == usize::BITS);
    word * 2
}

/// The heap size of a thin vector, see `thin_vec_heap`.
pub fn thin_vec_heap_size(element_sizes: &[usize], capacity: usize, item_size: usize) -> (r: usize)
    ensures
        r == saturate(thin_vec_heap(element_sizes@, capacity, item_size)),
{
    if capacity == 0 {
        return 0;
    }
    let size = add_sizes(sum_sizes(element_sizes), thin_vec_header_size());
    add_sizes(size, buffer_size(capacity, item_size))
}

/// The heap size of a compact string: its capacity where it keeps its text
/// on the heap, else nothing.
pub open spec fn compact_str_heap(heap_allocated: bool, capacity: usize) -> usize {
    if heap_allocated {
        capacity
    } else {
        0
    }
}

/// The heap size of a compact string, see `compact_str_heap`.
pub fn compact_str_heap_size(heap_allocated: bool, capacity: usize) -> (r: usize)
    ensures
        r == compact_str_heap(heap_allocated, capacity),
{
    if heap_allocated {
        capacity
    } else {
        0
    }
}

/// The heap size of a roaring bitmap from the bytes of its array, bitset
/// and run containers.
pub open spec fn roaring_bitmap_heap(array_bytes: u64, bitset_bytes: u64, run_bytes: u64) -> int {
    array_bytes + bitset_bytes + run_bytes
}

/// The heap size of a roaring bitmap, see `roaring_bitmap_heap`.
pub fn roaring_bitmap_heap_size(array_bytes: u64, bitset_bytes: u64, run_bytes: u64) -> (r: usize)
    ensures
        r == saturate(roaring_bitmap_heap(array_bytes, bitset_bytes, run_bytes)),
{
    let total: u128 = array_bytes as u128 + bitset_bytes as u128 + run_bytes as u128;
    if total > usize::MAX as u128 {
        usize::MAX
    } else {
        total as usize
    }
}

} // verus!
