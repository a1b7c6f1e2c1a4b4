//! Heap-size accounting for values, with trackers that make sure shared
//! allocations are counted once.

pub mod feature_impls;
pub mod get_size;
pub mod locks;
pub mod roaring_impl;
pub mod sizes;
pub mod tracker;

pub use tracker::{GetSizeTracker, NoTracker, StandardTracker};
pub use get_size::GetSize;
