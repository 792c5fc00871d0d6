//! A verified model of two tiny 2D game demos: a "stack blocks on a static
//! ground" physics sandbox and a "player shoots at a rotating enemy" toy.
//!
//! The demos themselves hand rendering, scheduling and rigid-body simulation
//! to a host engine; what is modelled and proved here is everything the demos
//! decide on their own: which entities exist, the exact sprite sizes,
//! positions, body kinds and collision half-extents they are created with,
//! and the per-frame updates (enemy rotation, bullet spawning, bullet
//! movement). Coordinates are exact integers in thousandths of a world unit,
//! and rotations are integer milliradians, so every contract pins the exact
//! resulting state.

pub mod color;
pub mod geom;
pub mod sandbox;
pub mod shooter;
pub mod world;
