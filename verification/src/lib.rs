//! Measures the deep memory footprint of values: the bytes of a value and of
//! everything it owns on the heap, with excess capacity, shared bytes and the
//! number of distinct allocations counted apart.
//!
//! A query makes a [`Context`], hands it to the traversal of one or more
//! values, each of which implements [`SizeOf`], and reads the result as a
//! [`TotalSize`]. An allocation behind shared handles is charged once in a
//! query, however many handles to it are met. Every value can be
//! measured: a counter that would exceed `usize::MAX` stays there.
//!
//! What the heap block of a container takes is estimated from its length
//! and capacity in [`estimate`], since no allocator is asked. The contracts
//! speak of a [`Tally`], the mathematical value of a context, and [`laws`]
//! states what holds of every measurement.

pub mod collections;
pub mod composite;
pub mod context;
pub mod directives;
pub mod estimate;
pub mod hashing;
pub mod human_bytes;
pub mod interior;
pub mod laws;
pub mod leaves;
pub mod measure;
pub mod ordered;
pub mod pointers;
pub mod support;
pub mod total;
pub mod tuples;

pub use context::{Context, Tally};
pub use human_bytes::HumanBytes;
pub use measure::{size_of_values, SizeOf};
pub use total::{TotalSize, Totals};
