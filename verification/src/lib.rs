//! Verified core of a Monte-Carlo path tracer.
//!
//! Rendering is split in two: the discrete bookkeeping that drives a render
//! lives here and is verified, while the floating-point geometry (vectors,
//! intersections, materials, shading) lives in the surrounding application,
//! since the verifier does not reason about floats.
//!
//! The verified core covers:
//! - the pseudo-random generator that every sampling decision draws from,
//! - the shared job counters of the worker pool and their accounting laws,
//! - the stratified sub-pixel sampling lattice, as exact fractions of a
//!   pixel's footprint,
//! - the image grid that collects per-pixel results, and the row-major
//!   enumeration of pixel jobs.

pub mod image;
pub mod lattice;
pub mod progress;
pub mod rng;
pub mod thread_pool;
