//! `GetSize` for types of outside crates.
use bytes::{Bytes, BytesMut};
use indexmap::{IndexMap, IndexSet};
use ordermap::{OrderMap, OrderSet};
use thin_vec::ThinVec;
use url::Url;
use vstd::prelude::*;
use vstd::string::StringSliceAdditionalSpecFns;

use crate::get_size::{
    entries_reported_in_turn, entry_heap_sizes, item_heap_sizes, reported_in_turn, GetSize,
};
use crate::sizes::{
    buffered_heap, buffered_heap_size, saturate, seq_sum, thin_vec_heap, thin_vec_heap_size,
};
use crate::tracker::GetSizeTracker;

verus! {

// Types that own nothing on the heap.

#[verifier::external_type_specification]
#[verifier::external_body]
pub struct ExNaiveDate(chrono::NaiveDate);

#[verifier::external_type_specification]
#[verifier::external_body]
pub struct ExNaiveTime(chrono::NaiveTime);

#[verifier::external_type_specification]
#[verifier::external_body]
pub struct ExNaiveDateTime(chrono::NaiveDateTime);

#[verifier::external_type_specification]
#[verifier::external_body]
pub struct ExUtc(chrono::Utc);

#[verifier::external_type_specification]
#[verifier::external_body]
pub struct ExFixedOffset(chrono::FixedOffset);

#[verifier::external_type_specification]
#[verifier::external_body]
pub struct ExTimeDelta(chrono::TimeDelta);

#[verifier::external_type_specification]
#[verifier::external_body]
pub struct ExTzOffset(chrono_tz::TzOffset);

impl GetSize for chrono::NaiveDate {
    open spec fn reports_heap(&self, size: usize) -> bool {
        size == 0
    }

    open spec fn hands_tracker_back() -> bool {
        true
    }

    fn get_heap_size_with_tracker<Tr: GetSizeTracker>(&self, tracker: Tr) -> (r: (usize, Tr)) {
        (0, tracker)
    }
}

impl GetSize for chrono::NaiveTime {
    open spec fn reports_heap(&self, size: usize) -> bool {
        size == 0
    }

    open spec fn hands_tracker_back() -> bool {
        true
    }

    fn get_heap_size_with_tracker<Tr: GetSizeTracker>(&self, tracker: Tr) -> (r: (usize, Tr)) {
        (0, tracker)
    }
}

impl GetSize for chrono::NaiveDateTime {
    open spec fn reports_heap(&self, size: usize) -> bool {
        size == 0
    }

    open spec fn hands_tracker_back() -> bool {
        true
    }

    fn get_heap_size_with_tracker<Tr: GetSizeTracker>(&self, tracker: Tr) -> (r: (usize, Tr)) {
        (0, tracker)
    }
}

impl GetSize for chrono::Utc {
    open spec fn reports_heap(&self, size: usize) -> bool {
        size == 0
    }

    open spec fn hands_tracker_back() -> bool {
        true
    }

    fn get_heap_size_with_tracker<Tr: GetSizeTracker>(&self, tracker: Tr) -> (r: (usize, Tr)) {
        (0, tracker)
    }
}

impl GetSize for chrono::FixedOffset {
    open spec fn reports_heap(&self, size: usize) -> bool {
        size == 0
    }

    open spec fn hands_tracker_back() -> bool {
        true
    }

    fn get_heap_size_with_tracker<Tr: GetSizeTracker>(&self, tracker: Tr) -> (r: (usize, Tr)) {
        (0, tracker)
    }
}

impl GetSize for chrono::TimeDelta {
    open spec fn reports_heap(&self, size: usize) -> bool {
        size == 0
    }

    open spec fn hands_tracker_back() -> bool {
        true
    }

    fn get_heap_size_with_tracker<Tr: GetSizeTracker>(&self, tracker: Tr) -> (r: (usize, Tr)) {
        (0, tracker)
    }
}

impl GetSize for chrono_tz::TzOffset {
    open spec fn reports_heap(&self, size: usize) -> bool {
        size == 0
    }

    open spec fn hands_tracker_back() -> bool {
        true
    }

    fn get_heap_size_with_tracker<Tr: GetSizeTracker>(&self, tracker: Tr) -> (r: (usize, Tr)) {
        (0, tracker)
    }
}


// Url

#[verifier::external_type_specification]
#[verifier::external_body]
pub struct ExUrl(Url);

/// The bytes of the serialization of a URL, the string that it keeps.
pub uninterp spec fn url_serialization(u: Url) -> Seq<u8>;

/// Calls `Url::as_str`: the serialization of the URL, which it stores. A
/// string is never longer than `usize::MAX` bytes.
#[verifier::external_body]
fn url_as_str(u: &Url) -> (r: &str)
    ensures
        r.spec_bytes() == url_serialization(*u),
        r.spec_bytes().len() <= usize::MAX,
{
    u.as_str()
}

impl GetSize for Url {
    open spec fn reports_heap(&self, size: usize) -> bool {
        size == url_serialization(*self).len()
    }

    open spec fn hands_tracker_back() -> bool {
        true
    }

    fn get_heap_size_with_tracker<T: GetSizeTracker>(&self, tracker: T) -> (r: (usize, T))
        ensures
            r.0 == url_serialization(*self).len(),
            r.1 == tracker,
    {
        (url_as_str(self).len(), tracker)
    }
}

/// The total size of a URL is the stack size of a `Url` plus the bytes of
/// its whole serialization: whatever `get_size` returns for `u` is that
/// sum.
pub proof fn lemma_url_total_size(u: &Url, r: usize)
    requires
        call_ensures(<Url as GetSize>::get_size, (u,), r),
    ensures
        r == crate::get_size::total_of(
            vstd::layout::size_of::<Url>() as usize,
            url_serialization(*u).len() as usize,
        ),
{
    let (stack_size, heap_size) = choose|stack_size: usize, heap_size: usize|
        #![trigger call_ensures(<Url as GetSize>::get_stack_size, (), stack_size), u.reports_heap(heap_size)]
        call_ensures(<Url as GetSize>::get_stack_size, (), stack_size) && u.reports_heap(heap_size)
            && r == crate::get_size::total_of(stack_size, heap_size);
    assert(stack_size == vstd::layout::size_of::<Url>());
}

// Bytes

#[verifier::external_type_specification]
#[verifier::external_body]
pub struct ExBytes(Bytes);

#[verifier::external_type_specification]
#[verifier::external_body]
pub struct ExBytesMut(BytesMut);

/// The bytes that a `Bytes` holds.
pub uninterp spec fn bytes_contents(b: Bytes) -> Seq<u8>;

/// The bytes that a `BytesMut` holds.
pub uninterp spec fn bytes_mut_contents(b: BytesMut) -> Seq<u8>;

/// Calls `Bytes::len`: the number of bytes it holds.
#[verifier::external_body]
fn bytes_len(b: &Bytes) -> (r: usize)
    ensures
        r == bytes_contents(*b).len(),
{
    b.len()
}

/// Calls `BytesMut::len`: the number of bytes it holds.
#[verifier::external_body]
fn bytes_mut_len(b: &BytesMut) -> (r: usize)
    ensures
        r == bytes_mut_contents(*b).len(),
{
    b.len()
}

impl GetSize for Bytes {
    open spec fn reports_heap(&self, size: usize) -> bool {
        size == bytes_contents(*self).len()
    }

    open spec fn hands_tracker_back() -> bool {
        true
    }

    fn get_heap_size_with_tracker<T: GetSizeTracker>(&self, tracker: T) -> (r: (usize, T))
        ensures
            r.0 == bytes_contents(*self).len(),
            r.1 == tracker,
    {
        (bytes_len(self), tracker)
    }
}

impl GetSize for BytesMut {
    open spec fn reports_heap(&self, size: usize) -> bool {
        size == bytes_mut_contents(*self).len()
    }

    open spec fn hands_tracker_back() -> bool {
        true
    }

    fn get_heap_size_with_tracker<T: GetSizeTracker>(&self, tracker: T) -> (r: (usize, T))
        ensures
            r.0 == bytes_mut_contents(*self).len(),
            r.1 == tracker,
    {
        (bytes_mut_len(self), tracker)
    }
}

// ThinVec

#[verifier::external_type_specification]
#[verifier::external_body]
#[verifier::reject_recursive_types(T)]
pub struct ExThinVec<T>(ThinVec<T>);

/// Calls `ThinVec::capacity`: how many elements fit without reallocating;
/// 0 for the shared empty singleton, which owns no buffer. The element
/// type is generic, so no name can be given to what the vector holds, and
/// nothing is stated of the result.
#[verifier::external_body]
fn thin_vec_capacity<T>(v: &ThinVec<T>) -> usize {
    v.capacity()
}

/// Calls `ThinVec::iter` and borrows each element, in order. Nothing is
/// stated of the result: the element type is generic.
#[verifier::external_body]
fn thin_vec_items<T>(v: &ThinVec<T>) -> Vec<&T> {
    v.iter().collect()
}

/// What a thin vector may report: nothing (the shared empty singleton);
/// or `thin_vec_heap` of the sizes that its elements report, one for each
/// in order, of a capacity that is not 0 and of the stack size of an
/// element.
///
/// The elements and the capacity themselves cannot be named, their type
/// being generic, so they stand here as some elements and some capacity.
pub open spec fn thin_vec_reports<T: GetSize>(size: usize) -> bool {
    ||| size == 0
    ||| exists|items: Seq<&T>, sizes: Seq<usize>, capacity: usize, item_size: usize|
        #![trigger reported_in_turn(items, sizes), thin_vec_heap(sizes, capacity, item_size)]
        reported_in_turn(items, sizes) && capacity != 0 && size == saturate(
            thin_vec_heap(sizes, capacity, item_size),
        )
}

/// What a collection that keeps its items in one buffer may report:
/// `buffered_heap` of the sizes that its items report, one for each in
/// order, of its capacity and of the stack size of an item.
///
/// The items and the capacity cannot be named, their type being generic,
/// so they stand here as some items and some capacity.
pub open spec fn buffered_items_report<T: GetSize>(size: usize) -> bool {
    exists|items: Seq<&T>, sizes: Seq<usize>, capacity: usize, item_size: usize|
        #![trigger reported_in_turn(items, sizes), buffered_heap(sizes, capacity, item_size)]
        reported_in_turn(items, sizes) && size == saturate(buffered_heap(sizes, capacity, item_size))
}

/// What a map that keeps its entries in one buffer may report:
/// `buffered_heap` of what its entries report (the key plus the value of
/// each, in order), of its capacity and of the stack size of a key and
/// value pair.
///
/// The entries and the capacity cannot be named, their types being
/// generic, so they stand here as some entries and some capacity.
pub open spec fn buffered_entries_report<K: GetSize, V: GetSize>(size: usize) -> bool {
    exists|
        entries: Seq<(&K, &V)>,
        key_sizes: Seq<usize>,
        value_sizes: Seq<usize>,
        sizes: Seq<usize>,
        capacity: usize,
    |
        #![trigger entries_reported_in_turn(entries, key_sizes, value_sizes, sizes), buffered_heap(sizes, capacity, vstd::layout::size_of::<(K, V)>() as usize)]
        entries_reported_in_turn(entries, key_sizes, value_sizes, sizes) && size == saturate(
            buffered_heap(sizes, capacity, vstd::layout::size_of::<(K, V)>() as usize),
        )
}

/// What a thin vector reports, tied to the vector itself: nothing where
/// `ThinVec::capacity` gives 0 (the shared empty singleton); else
/// `thin_vec_heap` of the sizes that the elements `ThinVec::iter` walks
/// report, in order, of that capacity and of the stack size that
/// `T::get_stack_size` gives.
pub closed spec fn thin_vec_tied_reports<T: GetSize>(v: &ThinVec<T>, size: usize) -> bool {
    exists|capacity: usize|
        #[trigger] call_ensures(thin_vec_capacity::<T>, (v,), capacity) && if capacity == 0 {
            size == 0
        } else {
            exists|items: Vec<&T>, sizes: Seq<usize>, item_size: usize|
                #![trigger call_ensures(thin_vec_items::<T>, (v,), items), call_ensures(T::get_stack_size, (), item_size), reported_in_turn(items@, sizes)]
                call_ensures(thin_vec_items::<T>, (v,), items) && call_ensures(
                    T::get_stack_size,
                    (),
                    item_size,
                ) && reported_in_turn(items@, sizes) && size == saturate(
                    thin_vec_heap(sizes, capacity, item_size),
                )
        }
}

/// The heap size of a thin vector is `thin_vec_heap_size` of the sizes its
/// elements report (asked in order, the tracker handed from one to the
/// next), its capacity and the stack size of an element; see
/// `thin_vec_reports`. A vector that reports nothing hands the tracker back
/// as it was, and so does every vector whose elements do.
impl<T> GetSize for ThinVec<T> where T: GetSize {
    open spec fn reports_heap(&self, size: usize) -> bool {
        thin_vec_reports::<T>(size) && thin_vec_tied_reports(self, size)
    }

    open spec fn hands_tracker_back() -> bool {
        T::hands_tracker_back()
    }

    fn get_heap_size_with_tracker<Tr: GetSizeTracker>(&self, tracker: Tr) -> (r: (usize, Tr))
        ensures
            r.0 == 0 || r.0 >= 2 * vstd::layout::size_of::<usize>(),
            r.0 == 0 ==> r.1 == tracker,
    {
        let capacity_of = thin_vec_capacity::<T>;
        let capacity = capacity_of(self);
        if capacity == 0 {
            // The shared empty singleton is not a heap allocation of ours.
            assert(thin_vec_tied_reports(self, 0));
            return (0, tracker);
        }
        let items_of = thin_vec_items::<T>;
        let items = items_of(self);
        let (sizes, tracker_after) = item_heap_sizes(items.as_slice(), tracker);
        let stack_of = T::get_stack_size;
        let item_size = stack_of();
        let size = thin_vec_heap_size(sizes.as_slice(), capacity, item_size);
        assert(call_ensures(thin_vec_items::<T>, (self,), items) && call_ensures(
            T::get_stack_size,
            (),
            item_size,
        ) && reported_in_turn(items@, sizes@));
        assert(thin_vec_tied_reports(self, size));
        assert(reported_in_turn(items@, sizes@) && size == saturate(
            thin_vec_heap(sizes@, capacity, item_size),
        ));
        assert(<ThinVec<T> as GetSize>::hands_tracker_back() == T::hands_tracker_back());
        assert(T::hands_tracker_back() ==> tracker_after == tracker);
        assert(Self::hands_tracker_back() == T::hands_tracker_back());
        (size, tracker_after)
    }
}

// IndexMap and IndexSet

#[verifier::external_type_specification]
#[verifier::external_body]
#[verifier::reject_recursive_types(K)]
#[verifier::reject_recursive_types(V)]
#[verifier::reject_recursive_types(S)]
pub struct ExIndexMap<K, V, S>(IndexMap<K, V, S>);

#[verifier::external_type_specification]
#[verifier::external_body]
#[verifier::reject_recursive_types(T)]
#[verifier::reject_recursive_types(S)]
pub struct ExIndexSet<T, S>(IndexSet<T, S>);

/// Calls `IndexMap::iter` and collects the entries, in the order of the
/// map. Nothing is stated of the result: the entry types are generic.
#[verifier::external_body]
fn index_map_entries<K, V, S>(m: &IndexMap<K, V, S>) -> Vec<(&K, &V)> {
    m.iter().collect()
}

/// Calls `IndexMap::capacity`: how many entries fit without reallocating.
#[verifier::external_body]
fn index_map_capacity<K, V, S>(m: &IndexMap<K, V, S>) -> usize {
    m.capacity()
}

/// Calls `IndexSet::iter` and collects the items, in the order of the set.
#[verifier::external_body]
fn index_set_items<T, S>(s: &IndexSet<T, S>) -> Vec<&T> {
    s.iter().collect()
}

/// Calls `IndexSet::capacity`: how many items fit without reallocating.
#[verifier::external_body]
fn index_set_capacity<T, S>(s: &IndexSet<T, S>) -> usize {
    s.capacity()
}

/// What an index map reports, tied to the map itself: `buffered_heap` of what
/// the entries `IndexMap::iter` walks report (the key plus the value of each, in
/// order), of the capacity that `IndexMap::capacity` gives and of the stack size
/// of a key and value pair.
pub closed spec fn index_map_reports<K: GetSize, V: GetSize, S>(m: &IndexMap<K, V, S>, size: usize) -> bool {
    exists|
        entries: Vec<(&K, &V)>,
        key_sizes: Seq<usize>,
        value_sizes: Seq<usize>,
        sizes: Seq<usize>,
        capacity: usize,
    |
        #![trigger call_ensures(index_map_entries::<K, V, S>, (m,), entries), call_ensures(index_map_capacity::<K, V, S>, (m,), capacity), entries_reported_in_turn(entries@, key_sizes, value_sizes, sizes)]
        call_ensures(index_map_entries::<K, V, S>, (m,), entries) && call_ensures(
            index_map_capacity::<K, V, S>,
            (m,),
            capacity,
        ) && entries_reported_in_turn(entries@, key_sizes, value_sizes, sizes) && size == saturate(
            buffered_heap(sizes, capacity, vstd::layout::size_of::<(K, V)>() as usize),
        )
}

/// The heap size of an index map: see `buffered_entries_report`.
impl<K, V, S> GetSize for IndexMap<K, V, S> where
    K: GetSize,
    V: GetSize,
    S: std::hash::BuildHasher,
 {
    open spec fn reports_heap(&self, size: usize) -> bool {
        buffered_entries_report::<K, V>(size) && index_map_reports(self, size)
    }

    open spec fn hands_tracker_back() -> bool {
        K::hands_tracker_back() && V::hands_tracker_back()
    }

    fn get_heap_size_with_tracker<Tr: GetSizeTracker>(&self, tracker: Tr) -> (r: (usize, Tr)) {
        let entries_of = index_map_entries::<K, V, S>;
        let entries = entries_of(self);
        let (sizes, tracker_after) = entry_heap_sizes(entries.as_slice(), tracker);
        let entry_size = core::mem::size_of::<(K, V)>();
        let capacity_of = index_map_capacity::<K, V, S>;
        let capacity = capacity_of(self);
        let size = buffered_heap_size(sizes.as_slice(), capacity, entry_size);
        proof {
            assert(call_ensures(index_map_entries::<K, V, S>, (self,), entries) && call_ensures(
                index_map_capacity::<K, V, S>,
                (self,),
                capacity,
            ));
            let (key_sizes, value_sizes) = choose|key_sizes: Seq<usize>, value_sizes: Seq<usize>|
                #[trigger] entries_reported_in_turn(entries@, key_sizes, value_sizes, sizes@);
            assert(entry_size == vstd::layout::size_of::<(K, V)>() as usize);
            assert(entries_reported_in_turn(entries@, key_sizes, value_sizes, sizes@) && size
                == saturate(buffered_heap(sizes@, capacity, entry_size)));
            assert((K::hands_tracker_back() && V::hands_tracker_back()) ==> tracker_after
                == tracker);
            assert(Self::hands_tracker_back() == (K::hands_tracker_back()
                && V::hands_tracker_back()));
            assert(Self::reports_heap(self, size));
        }
        (size, tracker_after)
    }
}

/// The heap size of an index set: see `buffered_items_report`.
/// What an index set reports, tied to the set itself: `buffered_heap` of
/// the sizes that the items `IndexSet::iter` walks report, in order, of the
/// capacity that `IndexSet::capacity` gives and of the stack size that
/// `T::get_stack_size` gives.
pub closed spec fn index_set_reports<T: GetSize, S>(s: &IndexSet<T, S>, size: usize) -> bool {
    exists|items: Vec<&T>, sizes: Seq<usize>, capacity: usize, item_size: usize|
        #![trigger call_ensures(index_set_items::<T, S>, (s,), items), call_ensures(index_set_capacity::<T, S>, (s,), capacity), call_ensures(T::get_stack_size, (), item_size), reported_in_turn(items@, sizes)]
        call_ensures(index_set_items::<T, S>, (s,), items) && call_ensures(
            index_set_capacity::<T, S>,
            (s,),
            capacity,
        ) && call_ensures(T::get_stack_size, (), item_size) && reported_in_turn(items@, sizes)
            && size == saturate(buffered_heap(sizes, capacity, item_size))
}

impl<T, S> GetSize for IndexSet<T, S> where T: GetSize {
    open spec fn reports_heap(&self, size: usize) -> bool {
        buffered_items_report::<T>(size) && index_set_reports(self, size)
    }

    open spec fn hands_tracker_back() -> bool {
        T::hands_tracker_back()
    }

    fn get_heap_size_with_tracker<Tr: GetSizeTracker>(&self, tracker: Tr) -> (r: (usize, Tr)) {
        let items_of = index_set_items::<T, S>;
        let items = items_of(self);
        let (sizes, tracker_after) = item_heap_sizes(items.as_slice(), tracker);
        let stack_of = T::get_stack_size;
        let item_size = stack_of();
        let capacity_of = index_set_capacity::<T, S>;
        let capacity = capacity_of(self);
        let size = buffered_heap_size(sizes.as_slice(), capacity, item_size);
        assert(reported_in_turn(items@, sizes@) && size == saturate(
            buffered_heap(sizes@, capacity, item_size),
        ));
        assert(call_ensures(index_set_items::<T, S>, (self,), items) && call_ensures(
            index_set_capacity::<T, S>,
            (self,),
            capacity,
        ) && call_ensures(T::get_stack_size, (), item_size));
        assert(index_set_reports(self, size));
        assert(T::hands_tracker_back() ==> tracker_after == tracker);
        assert(Self::hands_tracker_back() == T::hands_tracker_back());
        (size, tracker_after)
    }
}

// OrderMap and OrderSet

#[verifier::external_type_specification]
#[verifier::external_body]
#[verifier::reject_recursive_types(K)]
#[verifier::reject_recursive_types(V)]
#[verifier::reject_recursive_types(S)]
pub struct ExOrderMap<K, V, S>(OrderMap<K, V, S>);

#[verifier::external_type_specification]
#[verifier::external_body]
#[verifier::reject_recursive_types(T)]
#[verifier::reject_recursive_types(S)]
pub struct ExOrderSet<T, S>(OrderSet<T, S>);

/// Calls `OrderMap::iter` and collects the entries, in the order of the
/// map. Nothing is stated of the result: the entry types are generic.
#[verifier::external_body]
fn order_map_entries<K, V, S>(m: &OrderMap<K, V, S>) -> Vec<(&K, &V)> {
    m.iter().collect()
}

/// Calls `OrderMap::capacity`: how many entries fit without reallocating.
#[verifier::external_body]
fn order_map_capacity<K, V, S>(m: &OrderMap<K, V, S>) -> usize {
    m.capacity()
}

/// Calls `OrderSet::iter` and collects the items, in the order of the set.
#[verifier::external_body]
fn order_set_items<T, S>(s: &OrderSet<T, S>) -> Vec<&T> {
    s.iter().collect()
}

/// Calls `OrderSet::capacity`: how many items fit without reallocating.
#[verifier::external_body]
fn order_set_capacity<T, S>(s: &OrderSet<T, S>) -> usize {
    s.capacity()
}

/// What an order map reports, tied to the map itself: `buffered_heap` of what
/// the entries `OrderMap::iter` walks report (the key plus the value of each, in
/// order), of the capacity that `OrderMap::capacity` gives and of the stack size
/// of a key and value pair.
pub closed spec fn order_map_reports<K: GetSize, V: GetSize, S>(m: &OrderMap<K, V, S>, size: usize) -> bool {
    exists|
        entries: Vec<(&K, &V)>,
        key_sizes: Seq<usize>,
        value_sizes: Seq<usize>,
        sizes: Seq<usize>,
        capacity: usize,
    |
        #![trigger call_ensures(order_map_entries::<K, V, S>, (m,), entries), call_ensures(order_map_capacity::<K, V, S>, (m,), capacity), entries_reported_in_turn(entries@, key_sizes, value_sizes, sizes)]
        call_ensures(order_map_entries::<K, V, S>, (m,), entries) && call_ensures(
            order_map_capacity::<K, V, S>,
            (m,),
            capacity,
        ) && entries_reported_in_turn(entries@, key_sizes, value_sizes, sizes) && size == saturate(
            buffered_heap(sizes, capacity, vstd::layout::size_of::<(K, V)>() as usize),
        )
}

/// The heap size of an order map: see `buffered_entries_report`.
impl<K, V, S> GetSize for OrderMap<K, V, S> where
    K: GetSize,
    V: GetSize,
    S: std::hash::BuildHasher,
 {
    open spec fn reports_heap(&self, size: usize) -> bool {
        buffered_entries_report::<K, V>(size) && order_map_reports(self, size)
    }

    open spec fn hands_tracker_back() -> bool {
        K::hands_tracker_back() && V::hands_tracker_back()
    }

    fn get_heap_size_with_tracker<Tr: GetSizeTracker>(&self, tracker: Tr) -> (r: (usize, Tr)) {
        let entries_of = order_map_entries::<K, V, S>;
        let entries = entries_of(self);
        let (sizes, tracker_after) = entry_heap_sizes(entries.as_slice(), tracker);
        let entry_size = core::mem::size_of::<(K, V)>();
        let capacity_of = order_map_capacity::<K, V, S>;
        let capacity = capacity_of(self);
        let size = buffered_heap_size(sizes.as_slice(), capacity, entry_size);
        proof {
            assert(call_ensures(order_map_entries::<K, V, S>, (self,), entries) && call_ensures(
                order_map_capacity::<K, V, S>,
                (self,),
                capacity,
            ));
            let (key_sizes, value_sizes) = choose|key_sizes: Seq<usize>, value_sizes: Seq<usize>|
                #[trigger] entries_reported_in_turn(entries@, key_sizes, value_sizes, sizes@);
            assert(entry_size == vstd::layout::size_of::<(K, V)>() as usize);
            assert(entries_reported_in_turn(entries@, key_sizes, value_sizes, sizes@) && size
                == saturate(buffered_heap(sizes@, capacity, entry_size)));
            assert((K::hands_tracker_back() && V::hands_tracker_back()) ==> tracker_after
                == tracker);
            assert(Self::hands_tracker_back() == (K::hands_tracker_back()
                && V::hands_tracker_back()));
            assert(Self::reports_heap(self, size));
        }
        (size, tracker_after)
    }
}

/// The heap size of an order set: see `buffered_items_report`.
/// What an order set reports, tied to the set itself: `buffered_heap` of
/// the sizes that the items `OrderSet::iter` walks report, in order, of the
/// capacity that `OrderSet::capacity` gives and of the stack size that
/// `T::get_stack_size` gives.
pub closed spec fn order_set_reports<T: GetSize, S>(s: &OrderSet<T, S>, size: usize) -> bool {
    exists|items: Vec<&T>, sizes: Seq<usize>, capacity: usize, item_size: usize|
        #![trigger call_ensures(order_set_items::<T, S>, (s,), items), call_ensures(order_set_capacity::<T, S>, (s,), capacity), call_ensures(T::get_stack_size, (), item_size), reported_in_turn(items@, sizes)]
        call_ensures(order_set_items::<T, S>, (s,), items) && call_ensures(
            order_set_capacity::<T, S>,
            (s,),
            capacity,
        ) && call_ensures(T::get_stack_size, (), item_size) && reported_in_turn(items@, sizes)
            && size == saturate(buffered_heap(sizes, capacity, item_size))
}

impl<T, S> GetSize for OrderSet<T, S> where T: GetSize {
    open spec fn reports_heap(&self, size: usize) -> bool {
        buffered_items_report::<T>(size) && order_set_reports(self, size)
    }

    open spec fn hands_tracker_back() -> bool {
        T::hands_tracker_back()
    }

    fn get_heap_size_with_tracker<Tr: GetSizeTracker>(&self, tracker: Tr) -> (r: (usize, Tr)) {
        let items_of = order_set_items::<T, S>;
        let items = items_of(self);
        let (sizes, tracker_after) = item_heap_sizes(items.as_slice(), tracker);
        let stack_of = T::get_stack_size;
        let item_size = stack_of();
        let capacity_of = order_set_capacity::<T, S>;
        let capacity = capacity_of(self);
        let size = buffered_heap_size(sizes.as_slice(), capacity, item_size);
        assert(reported_in_turn(items@, sizes@) && size == saturate(
            buffered_heap(sizes@, capacity, item_size),
        ));
        assert(call_ensures(order_set_items::<T, S>, (self,), items) && call_ensures(
            order_set_capacity::<T, S>,
            (self,),
            capacity,
        ) && call_ensures(T::get_stack_size, (), item_size));
        assert(order_set_reports(self, size));
        assert(T::hands_tracker_back() ==> tracker_after == tracker);
        assert(Self::hands_tracker_back() == T::hands_tracker_back());
        (size, tracker_after)
    }
}

} // verus!

verus! {

/// The heap size that an index set reports counts exactly the set's own
/// items: there are the items that `IndexSet::iter` walks for `s`, one
/// size each that the item reports, the capacity that
/// `IndexSet::capacity` gives and the stack size of an item, such that the
/// size is the sum of those sizes plus the capacity times the stack size
/// (or `usize::MAX` where that does not fit).
proof fn lemma_index_set_size<T: GetSize, S>(s: &IndexSet<T, S>, size: usize)
    requires
        <IndexSet<T, S> as GetSize>::reports_heap(s, size),
    ensures
        exists|items: Vec<&T>, sizes: Seq<usize>, capacity: usize, item_size: usize|
            #![trigger call_ensures(index_set_items::<T, S>, (s,), items), call_ensures(index_set_capacity::<T, S>, (s,), capacity), call_ensures(T::get_stack_size, (), item_size), seq_sum(sizes)]
            {
                &&& call_ensures(index_set_items::<T, S>, (s,), items)
                &&& call_ensures(index_set_capacity::<T, S>, (s,), capacity)
                &&& call_ensures(T::get_stack_size, (), item_size)
                &&& sizes.len() == items@.len()
                &&& forall|i: int| 0 <= i < sizes.len() ==> T::reports_heap(items@[i], #[trigger] sizes[i])
                &&& size == saturate(seq_sum(sizes) + capacity * item_size)
            },
{
}


/// The heap size that an order set reports counts exactly the set's own
/// items: there are the items that `OrderSet::iter` walks for `s`, one
/// size each that the item reports, the capacity that
/// `OrderSet::capacity` gives and the stack size of an item, such that the
/// size is the sum of those sizes plus the capacity times the stack size
/// (or `usize::MAX` where that does not fit).
proof fn lemma_order_set_size<T: GetSize, S>(s: &OrderSet<T, S>, size: usize)
    requires
        <OrderSet<T, S> as GetSize>::reports_heap(s, size),
    ensures
        exists|items: Vec<&T>, sizes: Seq<usize>, capacity: usize, item_size: usize|
            #![trigger call_ensures(order_set_items::<T, S>, (s,), items), call_ensures(order_set_capacity::<T, S>, (s,), capacity), call_ensures(T::get_stack_size, (), item_size), seq_sum(sizes)]
            {
                &&& call_ensures(order_set_items::<T, S>, (s,), items)
                &&& call_ensures(order_set_capacity::<T, S>, (s,), capacity)
                &&& call_ensures(T::get_stack_size, (), item_size)
                &&& sizes.len() == items@.len()
                &&& forall|i: int| 0 <= i < sizes.len() ==> T::reports_heap(items@[i], #[trigger] sizes[i])
                &&& size == saturate(seq_sum(sizes) + capacity * item_size)
            },
{
}

/// The heap size that an index map reports counts exactly the map's own
/// entries: there are the entries that `IndexMap::iter` walks for `m`, for each
/// a size that its key reports and a size that its value reports, and the
/// capacity that `IndexMap::capacity` gives, such that the size is the sum over
/// the entries of key plus value, plus the capacity times the stack size of
/// a key and value pair (or `usize::MAX` where that does not fit).
proof fn lemma_index_map_size<K: GetSize, V: GetSize, S: std::hash::BuildHasher>(m: &IndexMap<K, V, S>, size: usize)
    requires
        <IndexMap<K, V, S> as GetSize>::reports_heap(m, size),
    ensures
        exists|
            entries: Vec<(&K, &V)>,
            key_sizes: Seq<usize>,
            value_sizes: Seq<usize>,
            sizes: Seq<usize>,
            capacity: usize,
        |
            #![trigger call_ensures(index_map_entries::<K, V, S>, (m,), entries), call_ensures(index_map_capacity::<K, V, S>, (m,), capacity), seq_sum(sizes), key_sizes.len(), value_sizes.len()]
            {
                &&& call_ensures(index_map_entries::<K, V, S>, (m,), entries)
                &&& call_ensures(index_map_capacity::<K, V, S>, (m,), capacity)
                &&& key_sizes.len() == entries@.len()
                &&& value_sizes.len() == entries@.len()
                &&& sizes.len() == entries@.len()
                &&& forall|i: int|
                    0 <= i < entries@.len() ==> K::reports_heap(entries@[i].0, #[trigger] key_sizes[i])
                &&& forall|i: int|
                    0 <= i < entries@.len() ==> V::reports_heap(entries@[i].1, #[trigger] value_sizes[i])
                &&& forall|i: int|
                    0 <= i < entries@.len() ==> #[trigger] sizes[i] == saturate(
                        key_sizes[i] + value_sizes[i],
                    )
                &&& size == saturate(
                    seq_sum(sizes) + capacity * vstd::layout::size_of::<(K, V)>() as usize,
                )
            },
{
    assert(index_map_reports(m, size));
    let (entries, key_sizes, value_sizes, sizes, capacity) = choose|
        entries: Vec<(&K, &V)>,
        key_sizes: Seq<usize>,
        value_sizes: Seq<usize>,
        sizes: Seq<usize>,
        capacity: usize,
    |
        #![trigger call_ensures(index_map_entries::<K, V, S>, (m,), entries), call_ensures(index_map_capacity::<K, V, S>, (m,), capacity), entries_reported_in_turn(entries@, key_sizes, value_sizes, sizes)]
        call_ensures(index_map_entries::<K, V, S>, (m,), entries) && call_ensures(
            index_map_capacity::<K, V, S>,
            (m,),
            capacity,
        ) && entries_reported_in_turn(entries@, key_sizes, value_sizes, sizes) && size == saturate(
            buffered_heap(sizes, capacity, vstd::layout::size_of::<(K, V)>() as usize),
        );
    assert(seq_sum(sizes) == seq_sum(sizes) && key_sizes.len() == entries@.len()
        && value_sizes.len() == entries@.len());
}

/// The heap size that an order map reports counts exactly the map's own
/// entries: there are the entries that `OrderMap::iter` walks for `m`, for each
/// a size that its key reports and a size that its value reports, and the
/// capacity that `OrderMap::capacity` gives, such that the size is the sum over
/// the entries of key plus value, plus the capacity times the stack size of
/// a key and value pair (or `usize::MAX` where that does not fit).
proof fn lemma_order_map_size<K: GetSize, V: GetSize, S: std::hash::BuildHasher>(m: &OrderMap<K, V, S>, size: usize)
    requires
        <OrderMap<K, V, S> as GetSize>::reports_heap(m, size),
    ensures
        exists|
            entries: Vec<(&K, &V)>,
            key_sizes: Seq<usize>,
            value_sizes: Seq<usize>,
            sizes: Seq<usize>,
            capacity: usize,
        |
            #![trigger call_ensures(order_map_entries::<K, V, S>, (m,), entries), call_ensures(order_map_capacity::<K, V, S>, (m,), capacity), seq_sum(sizes), key_sizes.len(), value_sizes.len()]
            {
                &&& call_ensures(order_map_entries::<K, V, S>, (m,), entries)
                &&& call_ensures(order_map_capacity::<K, V, S>, (m,), capacity)
                &&& key_sizes.len() == entries@.len()
                &&& value_sizes.len() == entries@.len()
                &&& sizes.len() == entries@.len()
                &&& forall|i: int|
                    0 <= i < entries@.len() ==> K::reports_heap(entries@[i].0, #[trigger] key_sizes[i])
                &&& forall|i: int|
                    0 <= i < entries@.len() ==> V::reports_heap(entries@[i].1, #[trigger] value_sizes[i])
                &&& forall|i: int|
                    0 <= i < entries@.len() ==> #[trigger] sizes[i] == saturate(
                        key_sizes[i] + value_sizes[i],
                    )
                &&& size == saturate(
                    seq_sum(sizes) + capacity * vstd::layout::size_of::<(K, V)>() as usize,
                )
            },
{
    assert(order_map_reports(m, size));
    let (entries, key_sizes, value_sizes, sizes, capacity) = choose|
        entries: Vec<(&K, &V)>,
        key_sizes: Seq<usize>,
        value_sizes: Seq<usize>,
        sizes: Seq<usize>,
        capacity: usize,
    |
        #![trigger call_ensures(order_map_entries::<K, V, S>, (m,), entries), call_ensures(order_map_capacity::<K, V, S>, (m,), capacity), entries_reported_in_turn(entries@, key_sizes, value_sizes, sizes)]
        call_ensures(order_map_entries::<K, V, S>, (m,), entries) && call_ensures(
            order_map_capacity::<K, V, S>,
            (m,),
            capacity,
        ) && entries_reported_in_turn(entries@, key_sizes, value_sizes, sizes) && size == saturate(
            buffered_heap(sizes, capacity, vstd::layout::size_of::<(K, V)>() as usize),
        );
    assert(seq_sum(sizes) == seq_sum(sizes) && key_sizes.len() == entries@.len()
        && value_sizes.len() == entries@.len());
}

/// The heap size that a thin vector reports counts exactly the vector's
/// own elements: where `ThinVec::capacity` gives 0 it is 0; else there are
/// the elements that `ThinVec::iter` walks for `v`, one size each that the
/// element reports, and the stack size of an element, such that the size
/// is the sum of those sizes, plus the header of two words, plus the
/// capacity times the stack size (or `usize::MAX` where that does not fit).
proof fn lemma_thin_vec_size<T: GetSize>(v: &ThinVec<T>, size: usize)
    requires
        <ThinVec<T> as GetSize>::reports_heap(v, size),
    ensures
        exists|capacity: usize|
            #[trigger] call_ensures(thin_vec_capacity::<T>, (v,), capacity) && (capacity == 0
                ==> size == 0) && (capacity != 0 ==> exists|
                items: Vec<&T>,
                sizes: Seq<usize>,
                item_size: usize,
            |
                #![trigger call_ensures(thin_vec_items::<T>, (v,), items), call_ensures(T::get_stack_size, (), item_size), seq_sum(sizes)]
                {
                    &&& call_ensures(thin_vec_items::<T>, (v,), items)
                    &&& call_ensures(T::get_stack_size, (), item_size)
                    &&& sizes.len() == items@.len()
                    &&& forall|i: int|
                        0 <= i < sizes.len() ==> T::reports_heap(items@[i], #[trigger] sizes[i])
                    &&& size == saturate(
                        seq_sum(sizes) + 2 * vstd::layout::size_of::<usize>() + capacity * item_size,
                    )
                }),
{
}

} // verus!
