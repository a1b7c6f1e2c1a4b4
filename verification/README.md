# get_size2

Heap-size accounting for Rust values, verified with Verus.

`GetSize` tells how many bytes a value occupies on the stack and on the
heap. Sizes are computed with a tracker (`GetSizeTracker`) that is handed
from part to part, so that an object reachable from several places is
counted once: `StandardTracker` remembers the addresses it has seen,
`NoTracker` gives a fixed answer.

Layout:

- `src/tracker.rs`: the tracker trait, `StandardTracker`, `NoTracker`, the
  model of a run of a standard tracker and its laws.
- `src/locks.rs`: trackers behind a `Mutex` or an `RwLock`.
- `src/get_size.rs`: the `GetSize` trait, its impls for primitives and
  references, and the folds that ask the items of a collection for their
  heap sizes.
- `src/sizes.rs`: the arithmetic of sizes for each layout (sums, buffers,
  small vectors, thin vectors, compact strings, roaring bitmaps).
- `src/feature_impls.rs`, `src/roaring_impl.rs`: `GetSize` for types of
  `chrono`, `chrono-tz`, `url`, `bytes`, `thin-vec`, `indexmap`, `ordermap`
  and `roaring`.
- `app/lib.rs`: pointer-based tracking, tracking through shared locks, and the heap sizes of `smallvec`,
  `hashbrown`, `compact_str`, `chrono::DateTime` and `orx-concurrent-vec`
  values, which Verus cannot name, computed with the verified arithmetic.

A size that does not fit in `usize` is reported as `usize::MAX`.
