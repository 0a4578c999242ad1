//! A pile of elements that only ever grows.
//!
//! Elements are put on the pile one at a time and stay where they were put:
//! nothing is taken off and nothing moves. Each element is a handle that
//! dereferences to the value it stands for, and putting it on the pile hands
//! back a reference to that value.
//!
//! [`Pile`] is the collection with its operations. [`laws`] states what
//! follows from them for whole runs of operations.

pub mod laws;
pub mod pile;

pub use crate::pile::Pile;
