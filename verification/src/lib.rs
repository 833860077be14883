//! Memory accounting for values: the bytes a value occupies in place plus the
//! bytes it owns on the heap, with shared allocations counted once.

pub mod buffers;
pub mod containers;
pub mod derive;
pub mod owners;
pub mod primitives;
pub mod remote;
pub mod size;
pub mod tracker;
pub mod tuples;

pub use derive::derive_get_size;
pub use size::GetSize;
pub use tracker::{GetSizeNoTracker, GetSizeTracker, StandardTracker, Visited};
