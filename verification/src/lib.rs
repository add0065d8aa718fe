//! A minimal growable contiguous buffer.
//!
//! [`MyVec`](myvec::MyVec) owns a contiguous store of elements, tracks how
//! many slots are backed by storage (its capacity) and how many hold live
//! elements (its length), and keeps the invariant `length <= capacity` in
//! every reachable state. Appending, reserving (amortized or exact),
//! shrinking and truncating are verified against exact contracts: each
//! operation states the resulting view of live elements and the resulting
//! capacity.
//!
//! The capacity arithmetic lives in [`growth`]: the amortized policy that
//! at least doubles the capacity, the exact policy, and the guard that a
//! requested capacity is representable as an allocation at all.

pub mod growth;
pub mod myvec;

pub use myvec::MyVec;
