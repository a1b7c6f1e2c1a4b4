use get_size2::tracker::{GetSizeTracker, NoTracker, StandardTracker};
use std::sync::{Mutex, RwLock};

#[test]
fn standard_tracker_reports_each_address_once() {
    let mut tracker = StandardTracker::new();
    assert!(tracker.track(0x1000));
    assert!(!tracker.track(0x1000));
    assert!(tracker.track(0x2000));
    assert!(!tracker.track(0x2000));
    assert!(!tracker.track(0x1000));
}

#[test]
fn standard_tracker_default_has_seen_nothing() {
    let mut tracker = StandardTracker::default();
    assert!(tracker.track(0));
    assert!(tracker.track(usize::MAX));
}

#[test]
fn standard_tracker_clear_forgets() {
    let mut tracker = StandardTracker::new();
    assert!(tracker.track(8));
    assert!(tracker.track(16));
    tracker.clear();
    assert!(tracker.track(8));
    assert!(tracker.track(16));
    assert!(!tracker.track(8));
}

#[test]
fn standard_tracker_counts_distinct_addresses() {
    let mut tracker = StandardTracker::new();
    let addrs = [5usize, 7, 5, 9, 7, 7, 11, 5];
    let answers: Vec<bool> = addrs.iter().map(|a| tracker.track(*a)).collect();
    assert_eq!(answers, vec![true, true, false, true, false, false, true, false]);
    assert_eq!(answers.iter().filter(|b| **b).count(), 4);
}

#[test]
fn no_tracker_always_gives_its_answer() {
    let mut yes = NoTracker::new(true);
    assert!(yes.answer());
    assert!(yes.track(1));
    assert!(yes.track(1));
    let mut no = NoTracker::new(false);
    assert!(!no.answer());
    assert!(!no.track(1));
    assert!(!no.track(2));
    assert!(!NoTracker::default().answer());
}

#[test]
fn no_tracker_set_answer() {
    let mut tracker = NoTracker::new(false);
    tracker.set_answer(true);
    assert!(tracker.answer());
    assert!(tracker.track(3));
    tracker.set_answer(false);
    assert!(!tracker.answer());
    assert!(!tracker.track(3));
}

#[test]
fn boxed_and_borrowed_trackers_delegate() {
    let mut boxed = Box::new(StandardTracker::new());
    assert!(boxed.track(42));
    assert!(!boxed.track(42));

    let mut inner = StandardTracker::new();
    {
        let mut borrowed = &mut inner;
        assert!(GetSizeTracker::track(&mut borrowed, 42));
    }
    assert!(!inner.track(42));
}

#[test]
fn locked_trackers_delegate() {
    let mut m = Mutex::new(StandardTracker::new());
    assert!(m.track(1));
    assert!(!m.track(1));

    let mut l = RwLock::new(StandardTracker::new());
    assert!(l.track(1));
    assert!(!l.track(1));
}

struct CountingTracker {
    calls: usize,
}

impl GetSizeTracker for CountingTracker {
    fn track(&mut self, _addr: usize) -> bool {
        self.calls += 1;
        self.calls == 1
    }
}

#[test]
fn user_trackers_plug_in() {
    let mut boxed = Box::new(CountingTracker { calls: 0 });
    assert!(boxed.track(1));
    assert!(!boxed.track(2));
    assert_eq!(boxed.calls, 2);
    let mut m = Mutex::new(CountingTracker { calls: 0 });
    assert!(m.track(9));
    assert!(!m.track(9));
}
