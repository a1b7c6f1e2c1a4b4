use get_size2::get_size::{entry_heap_sizes, item_heap_sizes, push_heap_size};
use bytes::{Bytes, BytesMut};
use get_size2::tracker::{NoTracker, StandardTracker};
use get_size2::GetSize;
use indexmap::{IndexMap, IndexSet};
use ordermap::{OrderMap, OrderSet};
use roaring::{RoaringBitmap, RoaringTreemap};
use thin_vec::ThinVec;
use url::Url;

#[test]
fn primitives_have_no_heap() {
    assert_eq!(5u32.get_heap_size(), 0);
    assert_eq!(5u32.get_size(), 4);
    assert_eq!(u64::get_stack_size(), 8);
    assert_eq!(true.get_size(), 1);
    let (size, _) = 7u8.get_size_with_tracker(StandardTracker::new());
    assert_eq!(size, 1);
}

#[test]
fn references_have_no_heap() {
    let v = vec![1u8, 2, 3];
    let s: &[u8] = &v;
    assert_eq!(s.get_heap_size(), 0);
    let text = "hello";
    assert_eq!(text.get_heap_size(), 0);
    let n = 5u64;
    let r = &n;
    assert_eq!(r.get_heap_size(), 0);
    assert_eq!(<&u64>::get_stack_size(), std::mem::size_of::<usize>());
}

#[test]
fn chrono_types_have_no_heap() {
    let d = chrono::NaiveDate::from_ymd_opt(2024, 2, 29).unwrap();
    assert_eq!(d.get_heap_size(), 0);
    assert_eq!(d.get_size(), std::mem::size_of::<chrono::NaiveDate>());
    assert_eq!(chrono::TimeDelta::seconds(5).get_heap_size(), 0);
    assert_eq!(chrono::Utc.get_heap_size(), 0);
}

#[test]
fn url_counts_its_serialization() {
    let u = Url::parse("https://example.net/").unwrap();
    assert_eq!(u.get_heap_size(), 20);
    let u = Url::parse("https://example.net/a/b?q=1").unwrap();
    assert_eq!(u.get_heap_size(), "https://example.net/a/b?q=1".len());
}

#[test]
fn bytes_count_their_length() {
    let b = Bytes::from(&b"hello"[..]);
    assert_eq!(b.get_heap_size(), 5);
    let b = BytesMut::from(&b"hello world"[..]);
    assert_eq!(b.get_heap_size(), 11);
    assert_eq!(Bytes::new().get_heap_size(), 0);
}

#[test]
fn thin_vec_heap_sizes() {
    let empty: ThinVec<u32> = ThinVec::new();
    assert_eq!(empty.get_heap_size(), 0);
    let mut v: ThinVec<u32> = ThinVec::with_capacity(10);
    v.push(1);
    v.push(2);
    assert_eq!(v.capacity(), 10);
    assert_eq!(v.get_heap_size(), 2 * std::mem::size_of::<usize>() + 10 * 4);
}

#[test]
fn thin_vec_of_urls_counts_elements() {
    let mut v: ThinVec<Url> = ThinVec::with_capacity(2);
    v.push(Url::parse("https://a.io/").unwrap());
    v.push(Url::parse("https://bb.io/").unwrap());
    let expected = 13 + 14 + 2 * std::mem::size_of::<usize>() + 2 * std::mem::size_of::<Url>();
    assert_eq!(v.get_heap_size(), expected);
}

#[test]
fn index_collections() {
    let mut m: IndexMap<u32, u64> = IndexMap::with_capacity(8);
    m.insert(1, 10);
    m.insert(2, 20);
    let cap = m.capacity();
    assert_eq!(m.get_heap_size(), cap * std::mem::size_of::<(u32, u64)>());

    let mut s: IndexSet<u16> = IndexSet::with_capacity(4);
    s.insert(3);
    assert_eq!(s.get_heap_size(), s.capacity() * 2);

    let mut urls: IndexMap<u8, Url> = IndexMap::new();
    urls.insert(1, Url::parse("https://a.io/").unwrap());
    let cap = urls.capacity();
    assert_eq!(urls.get_heap_size(), 13 + cap * std::mem::size_of::<(u8, Url)>());
}

#[test]
fn order_collections() {
    let mut m: OrderMap<u32, u32> = OrderMap::with_capacity(8);
    m.insert(1, 10);
    let cap = m.capacity();
    assert_eq!(m.get_heap_size(), cap * 8);

    let mut s: OrderSet<Bytes> = OrderSet::new();
    s.insert(Bytes::from(&b"abc"[..]));
    let cap = s.capacity();
    assert_eq!(s.get_heap_size(), 3 + cap * std::mem::size_of::<Bytes>());
}

#[test]
fn roaring_bitmap_counts_containers() {
    let bitmap: RoaringBitmap = (1..100).collect();
    let stats = bitmap.statistics();
    assert_eq!(stats.n_bytes_array_containers, 512);
    assert_eq!(bitmap.get_heap_size(), 512);
    let empty = RoaringBitmap::new();
    assert_eq!(empty.get_heap_size(), 0);
}

#[test]
fn roaring_treemap_counts_entries() {
    let empty = RoaringTreemap::new();
    assert_eq!(empty.get_heap_size(), 0);

    let mut t = RoaringTreemap::new();
    t.insert(1);
    t.insert(2);
    t.insert((1u64 << 32) + 5);
    let expected: usize = t
        .bitmaps()
        .map(|(_, b)| 4 + std::mem::size_of::<RoaringBitmap>() + b.get_heap_size())
        .sum();
    assert_eq!(t.bitmaps().count(), 2);
    assert_eq!(t.get_heap_size(), expected);
    let (with_tracker, _) = t.get_heap_size_with_tracker(NoTracker::new(false));
    assert_eq!(with_tracker, expected);
}

#[test]
fn thin_vec_counts_header_and_buffer() {
    let word = std::mem::size_of::<usize>();
    let mut v: ThinVec<u64> = ThinVec::with_capacity(4);
    v.push(1);
    v.push(2);
    let (size, tracker) = v.get_heap_size_with_tracker(NoTracker::new(true));
    assert_eq!(size, 2 * word + 4 * 8);
    assert!(tracker.answer());

    let empty: ThinVec<u64> = ThinVec::new();
    let (size, tracker) = empty.get_heap_size_with_tracker(NoTracker::new(true));
    assert_eq!(size, 0);
    assert!(tracker.answer());

    let allocated: ThinVec<u8> = ThinVec::with_capacity(1);
    let (size, tracker) = allocated.get_heap_size_with_tracker(NoTracker::new(false));
    assert_eq!(size, 2 * word + 1);
    assert!(!tracker.answer());
}

#[test]
fn empty_maps_count_nothing() {
    let m: IndexMap<u64, u64> = IndexMap::new();
    let (size, tracker) = m.get_heap_size_with_tracker(NoTracker::new(true));
    assert_eq!(size, 0);
    assert!(tracker.answer());
    let m: OrderMap<u64, u64> = OrderMap::new();
    let (size, tracker) = m.get_heap_size_with_tracker(NoTracker::new(false));
    assert_eq!(size, 0);
    assert!(!tracker.answer());
}

#[test]
fn folds_ask_each_item() {
    let a = Bytes::from(&b"abc"[..]);
    let b = Bytes::from(&b"hello"[..]);
    let items = vec![&a, &b];
    let (sizes, tracker) = item_heap_sizes(&items, StandardTracker::new());
    assert_eq!(sizes, vec![3, 5]);
    let mut tracker = tracker;
    assert!(get_size2::GetSizeTracker::track(&mut tracker, 1));

    let k = 7u32;
    let entries = vec![(&k, &b)];
    let (sizes, _) = entry_heap_sizes(&entries, NoTracker::new(true));
    assert_eq!(sizes, vec![5]);

    let (sizes, _) = push_heap_size((vec![1], NoTracker::new(false)), &a);
    assert_eq!(sizes, vec![1, 3]);
}
