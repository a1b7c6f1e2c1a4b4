use get_size2::get_size::total_size;
use get_size2::sizes::{
    add_sizes, allocated_heap_size, buffer_size, buffered_heap_size, compact_str_heap_size,
    roaring_bitmap_heap_size, small_vec_heap_size, sum_sizes, thin_vec_header_size,
    thin_vec_heap_size,
};

#[test]
fn add_and_saturate() {
    assert_eq!(add_sizes(3, 4), 7);
    assert_eq!(add_sizes(usize::MAX, 1), usize::MAX);
    assert_eq!(add_sizes(usize::MAX - 1, 1), usize::MAX);
    assert_eq!(total_size(24, 100), 124);
    assert_eq!(total_size(usize::MAX, usize::MAX), usize::MAX);
}

#[test]
fn buffer_bytes() {
    assert_eq!(buffer_size(10, 8), 80);
    assert_eq!(buffer_size(0, 8), 0);
    assert_eq!(buffer_size(10, 0), 0);
    assert_eq!(buffer_size(usize::MAX, 2), usize::MAX);
}

#[test]
fn sums() {
    assert_eq!(sum_sizes(&[]), 0);
    assert_eq!(sum_sizes(&[1, 2, 3, 4]), 10);
    assert_eq!(sum_sizes(&[usize::MAX, 1, 2]), usize::MAX);
}

#[test]
fn small_vec_inline_counts_only_elements() {
    // Two elements in a vector that keeps four inline: no buffer.
    assert_eq!(small_vec_heap_size(&[5, 6], 4, 4, 8), 11);
    // As many elements as fit inline: still no buffer.
    assert_eq!(small_vec_heap_size(&[0, 0, 0, 0], 4, 4, 8), 0);
}

#[test]
fn small_vec_spilled_counts_buffer() {
    // Five elements, four inline: spilled to a buffer of 8 items of 8 bytes.
    assert_eq!(small_vec_heap_size(&[1, 1, 1, 1, 1], 4, 8, 8), 5 + 64);
}

#[test]
fn buffered_and_allocated() {
    assert_eq!(buffered_heap_size(&[10, 20], 4, 16), 30 + 64);
    assert_eq!(buffered_heap_size(&[], 0, 16), 0);
    assert_eq!(allocated_heap_size(&[10, 20], 100), 130);
    assert_eq!(allocated_heap_size(&[], 0), 0);
}

#[test]
fn thin_vec_formula() {
    let header = 2 * std::mem::size_of::<usize>();
    assert_eq!(thin_vec_header_size(), header);
    // No buffer: nothing, whatever the elements claim.
    assert_eq!(thin_vec_heap_size(&[], 0, 4), 0);
    assert_eq!(thin_vec_heap_size(&[7], 0, 4), 0);
    assert_eq!(thin_vec_heap_size(&[], 3, 4), header + 12);
    assert_eq!(thin_vec_heap_size(&[7, 9], 3, 4), 16 + header + 12);
}

#[test]
fn compact_str_sizes() {
    assert_eq!(compact_str_heap_size(false, 24), 0);
    assert_eq!(compact_str_heap_size(true, 128), 128);
}

#[test]
fn roaring_bitmap_sizes() {
    assert_eq!(roaring_bitmap_heap_size(512, 8192, 10), 8714);
    assert_eq!(roaring_bitmap_heap_size(0, 0, 0), 0);
    assert_eq!(roaring_bitmap_heap_size(u64::MAX, u64::MAX, 1), usize::MAX);
}

#[test]
fn small_vec_reviewed_cases() {
    // Three bytes inline in room for four: nothing on the heap.
    assert_eq!(small_vec_heap_size(&[0, 0, 0], 4, 4, 1), 0);
    // Three u64 spilled from room for two into a buffer for five.
    assert_eq!(small_vec_heap_size(&[0, 0, 0], 2, 5, 8), 40);
}
