//! The `GetSize` trait: how many bytes a value occupies on the stack and on
//! the heap.
use vstd::prelude::*;

use crate::sizes::{add_sizes, saturate};
use crate::tracker::{GetSizeTracker, NoTracker};

verus! {

/// Determines the size in bytes that a value occupies, on the stack and on
/// the heap.
///
/// Every type says how it measures its heap, in `get_heap_size_with_tracker`,
/// and what it reports, in `reports_heap` and `hands_tracker_back`: a type
/// that holds nothing there returns nothing and hands the tracker back; a
/// type that does hands the tracker on to each part that it owns, so that
/// shared parts are counted once. The measurement has no default, so that
/// what every type reports is what its measurement returns.
pub trait GetSize: Sized {
    /// Whether this value may report a heap size of `size`. A type that
    /// does not say may report any size.
    open spec fn reports_heap(&self, size: usize) -> bool {
        true
    }

    /// Whether every value of this type, asked for its heap size, hands
    /// the tracker back as it was. A type that does not say makes no such
    /// promise.
    open spec fn hands_tracker_back() -> bool {
        false
    }

    /// Determines how many bytes this object occupies inside the stack.
    ///
    /// The default is `std::mem::size_of::<Self>()`.
    fn get_stack_size() -> (r: usize)
        default_ensures
            r == vstd::layout::size_of::<Self>(),
    {
        core::mem::size_of::<Self>()
    }

    /// Determines how many bytes this object occupies inside the heap while
    /// using a `tracker`, and hands the tracker back.
    fn get_heap_size_with_tracker<Tr: GetSizeTracker>(&self, tracker: Tr) -> (r: (usize, Tr))
        ensures
            self.reports_heap(r.0),
            Self::hands_tracker_back() ==> r.1 == tracker,
    ;

    /// Determines how many bytes this object occupies inside the heap,
    /// counting every shared part each time it is reached: what it reports
    /// to a pseudo tracker that answers `true`.
    fn get_heap_size(&self) -> (r: usize)
        ensures
            self.reports_heap(r),
    {
        let tracker = NoTracker::new(true);
        self.get_heap_size_with_tracker(tracker).0
    }

    /// Determines the total size of the object while using a `tracker`: its
    /// stack size plus the heap size that it reports, and the tracker that
    /// its heap measurement hands back. The stack size is what
    /// `get_stack_size` gives, which a type may override, so it stands in
    /// the contract as some stack size.
    fn get_size_with_tracker<Tr: GetSizeTracker>(&self, tracker: Tr) -> (r: (usize, Tr))
        ensures
            exists|stack_size: usize, heap_size: usize|
                #![trigger self.reports_heap(heap_size), total_of(stack_size, heap_size)]
                self.reports_heap(heap_size) && r.0 == total_of(stack_size, heap_size),
            exists|stack_size: usize, heap_size: usize|
                #![trigger call_ensures(Self::get_stack_size, (), stack_size), self.reports_heap(heap_size)]
                call_ensures(Self::get_stack_size, (), stack_size) && self.reports_heap(heap_size)
                    && r.0 == total_of(stack_size, heap_size),
            Self::hands_tracker_back() ==> r.1 == tracker,
    {
        let stack_of = Self::get_stack_size;
        let stack_size = stack_of();
        let (heap_size, after) = self.get_heap_size_with_tracker(tracker);
        let total = total_size(stack_size, heap_size);
        assert(self.reports_heap(heap_size) && total == total_of(stack_size, heap_size));
        assert(call_ensures(Self::get_stack_size, (), stack_size));
        (total, after)
    }

    /// Determines the total size of the object: its stack size plus the
    /// heap size that it reports, counting every shared part each time it
    /// is reached.
    fn get_size(&self) -> (r: usize)
        ensures
            exists|stack_size: usize, heap_size: usize|
                #![trigger self.reports_heap(heap_size), total_of(stack_size, heap_size)]
                self.reports_heap(heap_size) && r == total_of(stack_size, heap_size),
            exists|stack_size: usize, heap_size: usize|
                #![trigger call_ensures(Self::get_stack_size, (), stack_size), self.reports_heap(heap_size)]
                call_ensures(Self::get_stack_size, (), stack_size) && self.reports_heap(heap_size)
                    && r == total_of(stack_size, heap_size),
    {
        let tracker = NoTracker::new(true);
        self.get_size_with_tracker(tracker).0
    }
}

/// The total size of a value of `stack_size` bytes on the stack and
/// `heap_size` bytes on the heap.
pub open spec fn total_of(stack_size: usize, heap_size: usize) -> usize {
    saturate(stack_size + heap_size)
}

/// The total size of any value is the stack size that its type's
/// `get_stack_size` gives plus a heap size that the value reports, or
/// `usize::MAX` where that does not fit: whatever `get_size` returns for
/// `v` is such a sum, never the heap size alone where the stack size is
/// not 0.
pub proof fn lemma_total_size_adds_stack<T: GetSize>(v: &T, r: usize)
    requires
        call_ensures(T::get_size, (v,), r),
    ensures
        exists|stack_size: usize, heap_size: usize|
            #![trigger call_ensures(T::get_stack_size, (), stack_size), T::reports_heap(v, heap_size)]
            call_ensures(T::get_stack_size, (), stack_size) && T::reports_heap(v, heap_size) && (r
                == if stack_size + heap_size > usize::MAX {
                usize::MAX
            } else {
                (stack_size + heap_size) as usize
            }),
{
}

/// The total size of a value from its stack size and its heap size.
pub fn total_size(stack_size: usize, heap_size: usize) -> (r: usize)
    ensures
        r == total_of(stack_size, heap_size),
{
    add_sizes(stack_size, heap_size)
}

impl GetSize for u8 {
    open spec fn reports_heap(&self, size: usize) -> bool {
        size == 0
    }

    open spec fn hands_tracker_back() -> bool {
        true
    }

    fn get_heap_size_with_tracker<Tr: GetSizeTracker>(&self, tracker: Tr) -> (r: (usize, Tr)) {
        (0, tracker)
    }
}

impl GetSize for u16 {
    open spec fn reports_heap(&self, size: usize) -> bool {
        size == 0
    }

    open spec fn hands_tracker_back() -> bool {
        true
    }

    fn get_heap_size_with_tracker<Tr: GetSizeTracker>(&self, tracker: Tr) -> (r: (usize, Tr)) {
        (0, tracker)
    }
}

impl GetSize for u32 {
    open spec fn reports_heap(&self, size: usize) -> bool {
        size == 0
    }

    open spec fn hands_tracker_back() -> bool {
        true
    }

    fn get_heap_size_with_tracker<Tr: GetSizeTracker>(&self, tracker: Tr) -> (r: (usize, Tr)) {
        (0, tracker)
    }
}

impl GetSize for u64 {
    open spec fn reports_heap(&self, size: usize) -> bool {
        size == 0
    }

    open spec fn hands_tracker_back() -> bool {
        true
    }

    fn get_heap_size_with_tracker<Tr: GetSizeTracker>(&self, tracker: Tr) -> (r: (usize, Tr)) {
        (0, tracker)
    }
}

impl GetSize for u128 {
    open spec fn reports_heap(&self, size: usize) -> bool {
        size == 0
    }

    open spec fn hands_tracker_back() -> bool {
        true
    }

    fn get_heap_size_with_tracker<Tr: GetSizeTracker>(&self, tracker: Tr) -> (r: (usize, Tr)) {
        (0, tracker)
    }
}

impl GetSize for usize {
    open spec fn reports_heap(&self, size: usize) -> bool {
        size == 0
    }

    open spec fn hands_tracker_back() -> bool {
        true
    }

    fn get_heap_size_with_tracker<Tr: GetSizeTracker>(&self, tracker: Tr) -> (r: (usize, Tr)) {
        (0, tracker)
    }
}

impl GetSize for i8 {
    open spec fn reports_heap(&self, size: usize) -> bool {
        size == 0
    }

    open spec fn hands_tracker_back() -> bool {
        true
    }

    fn get_heap_size_with_tracker<Tr: GetSizeTracker>(&self, tracker: Tr) -> (r: (usize, Tr)) {
        (0, tracker)
    }
}

impl GetSize for i16 {
    open spec fn reports_heap(&self, size: usize) -> bool {
        size == 0
    }

    open spec fn hands_tracker_back() -> bool {
        true
    }

    fn get_heap_size_with_tracker<Tr: GetSizeTracker>(&self, tracker: Tr) -> (r: (usize, Tr)) {
        (0, tracker)
    }
}

impl GetSize for i32 {
    open spec fn reports_heap(&self, size: usize) -> bool {
        size == 0
    }

    open spec fn hands_tracker_back() -> bool {
        true
    }

    fn get_heap_size_with_tracker<Tr: GetSizeTracker>(&self, tracker: Tr) -> (r: (usize, Tr)) {
        (0, tracker)
    }
}

impl GetSize for i64 {
    open spec fn reports_heap(&self, size: usize) -> bool {
        size == 0
    }

    open spec fn hands_tracker_back() -> bool {
        true
    }

    fn get_heap_size_with_tracker<Tr: GetSizeTracker>(&self, tracker: Tr) -> (r: (usize, Tr)) {
        (0, tracker)
    }
}

impl GetSize for i128 {
    open spec fn reports_heap(&self, size: usize) -> bool {
        size == 0
    }

    open spec fn hands_tracker_back() -> bool {
        true
    }

    fn get_heap_size_with_tracker<Tr: GetSizeTracker>(&self, tracker: Tr) -> (r: (usize, Tr)) {
        (0, tracker)
    }
}

impl GetSize for isize {
    open spec fn reports_heap(&self, size: usize) -> bool {
        size == 0
    }

    open spec fn hands_tracker_back() -> bool {
        true
    }

    fn get_heap_size_with_tracker<Tr: GetSizeTracker>(&self, tracker: Tr) -> (r: (usize, Tr)) {
        (0, tracker)
    }
}

impl GetSize for bool {
    open spec fn reports_heap(&self, size: usize) -> bool {
        size == 0
    }

    open spec fn hands_tracker_back() -> bool {
        true
    }

    fn get_heap_size_with_tracker<Tr: GetSizeTracker>(&self, tracker: Tr) -> (r: (usize, Tr)) {
        (0, tracker)
    }
}

impl GetSize for char {
    open spec fn reports_heap(&self, size: usize) -> bool {
        size == 0
    }

    open spec fn hands_tracker_back() -> bool {
        true
    }

    fn get_heap_size_with_tracker<Tr: GetSizeTracker>(&self, tracker: Tr) -> (r: (usize, Tr)) {
        (0, tracker)
    }
}

impl GetSize for () {
    open spec fn reports_heap(&self, size: usize) -> bool {
        size == 0
    }

    open spec fn hands_tracker_back() -> bool {
        true
    }

    fn get_heap_size_with_tracker<Tr: GetSizeTracker>(&self, tracker: Tr) -> (r: (usize, Tr)) {
        (0, tracker)
    }
}


// A reference only borrows its data, which belongs to whoever owns it, so
// all of these report a heap size of zero.
impl<T> GetSize for &[T] where T: GetSize {
    open spec fn reports_heap(&self, size: usize) -> bool {
        size == 0
    }

    open spec fn hands_tracker_back() -> bool {
        true
    }

    fn get_heap_size_with_tracker<Tr: GetSizeTracker>(&self, tracker: Tr) -> (r: (usize, Tr)) {
        (0, tracker)
    }
}

impl<T> GetSize for &T {
    open spec fn reports_heap(&self, size: usize) -> bool {
        size == 0
    }

    open spec fn hands_tracker_back() -> bool {
        true
    }

    fn get_heap_size_with_tracker<Tr: GetSizeTracker>(&self, tracker: Tr) -> (r: (usize, Tr)) {
        (0, tracker)
    }
}

impl<T> GetSize for &mut T {
    open spec fn reports_heap(&self, size: usize) -> bool {
        size == 0
    }

    open spec fn hands_tracker_back() -> bool {
        true
    }

    fn get_heap_size_with_tracker<Tr: GetSizeTracker>(&self, tracker: Tr) -> (r: (usize, Tr)) {
        (0, tracker)
    }
}

impl GetSize for &str {
    open spec fn reports_heap(&self, size: usize) -> bool {
        size == 0
    }

    open spec fn hands_tracker_back() -> bool {
        true
    }

    fn get_heap_size_with_tracker<Tr: GetSizeTracker>(&self, tracker: Tr) -> (r: (usize, Tr)) {
        (0, tracker)
    }
}


} // verus!

verus! {

/// Whether `items` may report `sizes`, one size for each item, in order.
pub open spec fn reported_in_turn<T: GetSize>(items: Seq<&T>, sizes: Seq<usize>) -> bool {
    &&& sizes.len() == items.len()
    &&& forall|i: int| 0 <= i < items.len() ==> T::reports_heap(items[i], #[trigger] sizes[i])
}

/// Whether the entries of a map may report `key_sizes` for their keys and
/// `value_sizes` for their values, in order, and `sizes` is the sum of the
/// two for each entry.
pub open spec fn entries_reported_in_turn<K: GetSize, V: GetSize>(
    entries: Seq<(&K, &V)>,
    key_sizes: Seq<usize>,
    value_sizes: Seq<usize>,
    sizes: Seq<usize>,
) -> bool {
    &&& key_sizes.len() == entries.len()
    &&& value_sizes.len() == entries.len()
    &&& sizes.len() == entries.len()
    &&& forall|i: int| 0 <= i < entries.len() ==> K::reports_heap(entries[i].0, #[trigger] key_sizes[i])
    &&& forall|i: int|
        0 <= i < entries.len() ==> V::reports_heap(entries[i].1, #[trigger] value_sizes[i])
    &&& forall|i: int|
        0 <= i < entries.len() ==> #[trigger] sizes[i] == saturate(key_sizes[i] + value_sizes[i])
}

/// Asks each item for its heap size in turn, handing the tracker from one
/// to the next; returns the sizes, in the order of the items, and the
/// tracker.
pub fn item_heap_sizes<T: GetSize, Tr: GetSizeTracker>(items: &[&T], tracker: Tr) -> (r: (
    Vec<usize>,
    Tr,
))
    ensures
        reported_in_turn(items@, r.0@),
        items@.len() == 0 || T::hands_tracker_back() ==> r.1 == tracker,
{
    let ghost start = tracker;
    let mut sizes: Vec<usize> = Vec::new();
    let mut tracker = tracker;
    let mut i: usize = 0;
    while i < items.len()
        invariant
            i <= items@.len(),
            reported_in_turn(items@.take(i as int), sizes@),
            i == 0 || T::hands_tracker_back() ==> tracker == start,
        decreases items@.len() - i,
    {
        let (size, next) = items[i].get_heap_size_with_tracker(tracker);
        proof {
            assert forall|j: int| 0 <= j < i + 1 implies T::reports_heap(
                items@.take(i + 1)[j],
                #[trigger] sizes@.push(size)[j],
            ) by {
                if j < i {
                    assert(items@.take(i as int)[j] == items@.take(i + 1)[j]);
                    assert(sizes@[j] == sizes@.push(size)[j]);
                }
            }
        }
        tracker = next;
        sizes.push(size);
        i = i + 1;
    }
    assert(items@.take(i as int) =~= items@);
    (sizes, tracker)
}

/// Asks each entry of a map for its heap size in turn, the key and then
/// the value, handing the tracker from one to the next; returns for each
/// entry the sum of the two, in the order of the entries, and the tracker.
pub fn entry_heap_sizes<K: GetSize, V: GetSize, Tr: GetSizeTracker>(
    entries: &[(&K, &V)],
    tracker: Tr,
) -> (r: (Vec<usize>, Tr))
    ensures
        exists|key_sizes: Seq<usize>, value_sizes: Seq<usize>|
            #[trigger] entries_reported_in_turn(entries@, key_sizes, value_sizes, r.0@),
        entries@.len() == 0 || (K::hands_tracker_back() && V::hands_tracker_back()) ==> r.1
            == tracker,
{
    let ghost start = tracker;
    let ghost mut key_sizes: Seq<usize> = seq![];
    let ghost mut value_sizes: Seq<usize> = seq![];
    let mut sizes: Vec<usize> = Vec::new();
    let mut tracker = tracker;
    let mut i: usize = 0;
    while i < entries.len()
        invariant
            i <= entries@.len(),
            entries_reported_in_turn(entries@.take(i as int), key_sizes, value_sizes, sizes@),
            i == 0 || (K::hands_tracker_back() && V::hands_tracker_back()) ==> tracker == start,
        decreases entries@.len() - i,
    {
        let (key, value) = entries[i];
        let (key_size, mid) = key.get_heap_size_with_tracker(tracker);
        let (value_size, next) = value.get_heap_size_with_tracker(mid);
        let size = add_sizes(key_size, value_size);
        let ghost old_sizes = sizes@;
        sizes.push(size);
        proof {
            let old_keys = key_sizes;
            let old_values = value_sizes;
            key_sizes = key_sizes.push(key_size);
            value_sizes = value_sizes.push(value_size);
            let new_entries = entries@.take(i + 1);
            assert forall|j: int| 0 <= j < i + 1 implies K::reports_heap(
                new_entries[j].0,
                #[trigger] key_sizes[j],
            ) by {
                if j < i {
                    assert(entries@.take(i as int)[j] == new_entries[j]);
                    assert(old_keys[j] == key_sizes[j]);
                } else {
                    assert(new_entries[j] == entries@[i as int]);
                }
            }
            assert forall|j: int| 0 <= j < i + 1 implies V::reports_heap(
                new_entries[j].1,
                #[trigger] value_sizes[j],
            ) by {
                if j < i {
                    assert(entries@.take(i as int)[j] == new_entries[j]);
                    assert(old_values[j] == value_sizes[j]);
                } else {
                    assert(new_entries[j] == entries@[i as int]);
                }
            }
            assert forall|j: int| 0 <= j < i + 1 implies #[trigger] sizes@[j] == saturate(
                key_sizes[j] + value_sizes[j],
            ) by {
                if j < i {
                    assert(old_sizes[j] == sizes@[j]);
                    assert(old_keys[j] == key_sizes[j]);
                    assert(old_values[j] == value_sizes[j]);
                }
            }
            assert(key_sizes.len() == new_entries.len());
            assert(value_sizes.len() == new_entries.len());
            assert(sizes@.len() == new_entries.len());
            assert(entries_reported_in_turn(new_entries, key_sizes, value_sizes, sizes@));
        }
        tracker = next;
        i = i + 1;
    }
    assert(entries@.take(i as int) =~= entries@);
    assert(entries_reported_in_turn(entries@, key_sizes, value_sizes, sizes@));
    let r = (sizes, tracker);
    assert(entries_reported_in_turn(entries@, key_sizes, value_sizes, r.0@));
    r
}

} // verus!

verus! {

/// One step of a fold over the items of a collection: asks `item` for its
/// heap size with the tracker in `acc`, appends the size to the sizes in
/// `acc`, and hands the tracker on.
pub fn push_heap_size<T: GetSize, Tr: GetSizeTracker>(acc: (Vec<usize>, Tr), item: &T) -> (r: (
    Vec<usize>,
    Tr,
))
    ensures
        exists|size: usize| #[trigger] T::reports_heap(item, size) && r.0@ == acc.0@.push(size),
        T::hands_tracker_back() ==> r.1 == acc.1,
{
    let (mut sizes, tracker) = acc;
    let (size, tracker) = item.get_heap_size_with_tracker(tracker);
    sizes.push(size);
    (sizes, tracker)
}

} // verus!
