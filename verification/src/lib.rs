//! Static configuration surface for a tensegrity-structure physics
//! simulation: the lifecycle stages a structure passes through, the
//! classification of structural members into roles with derived rest
//! lengths, the table of tunable parameters read by the force integrator,
//! and the palettes used to render roles and strains.
//!
//! Every numeric parameter here is a single-precision value fixed at build
//! time. The simulation's convergence is tuned to the exact bit patterns of
//! those values, so this crate states each one as its IEEE-754 single
//! (binary32) bit pattern, a `u32`, and the contracts pin the patterns
//! bit for bit. A host converts a pattern to a runtime float at the
//! boundary with `f32::from_bits`, which is lossless.

use vstd::prelude::*;

pub mod feature;
pub mod palette;
pub mod role;
pub mod stage;
pub mod surface;

verus! {

/// Number of shape-memory slots a structure keeps.
pub const SHAPE_COUNT: usize = 16;

/// Shape-memory slot that holds the rest shape.
pub const REST_SHAPE: u8 = 0;

} // verus!
