//! A declarative layer for multi-pass GPU compute pipelines.
//!
//! The crate models the bookkeeping that drives a chain of compute passes:
//! which passes exist, which named buffers each one reads, which physical
//! side of a double-buffered resource is readable or writable at any moment,
//! and the exact sequence of dispatches one frame records. Everything here
//! works on plain values — names, indices, sides, generations — so the whole
//! scheduling discipline is verified. The surrounding application owns the
//! actual GPU objects and performs each recorded step, addressing its
//! resources by the handles this crate resolves.

pub mod compute;
pub mod export;
pub mod ply;
pub mod radix_sort;
pub mod video;
