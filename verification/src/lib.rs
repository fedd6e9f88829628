//! Support library for a small graphics engine.
//!
//! The core is the typed memory block of [`memory`]: an owned, contiguous
//! buffer of homogeneous elements with a verified lifecycle — allocation,
//! zero-initialization, duplication, resizing, bulk copy and release.
//! Around it stand the fixed-size vectors of [`mgmath`], the pseudo-random
//! number generator of [`rng`], and the plain data types of [`video`] that
//! describe the rendering side.

pub mod memory;
pub mod mgmath;
pub mod rng;
pub mod video;
