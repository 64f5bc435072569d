//! Penrose P2 tile geometry: the Dart and Kite shapes, their edge
//! addressing, an exact edge-matching placement rule, and the seven legal
//! vertex configurations of the P2 tiling.
//!
//! All geometry is exact: coordinates live in the ring generated by 1,
//! sqrt(5) and sin(36 degrees) over dyadic rationals (see [`coord`]), and
//! orientations are integer degrees normalized into [0, 360) (see
//! [`degrees`]).  Shared edges of placed tiles therefore coincide exactly,
//! not merely within a floating-point tolerance.

pub mod coord;
pub mod degrees;
pub mod tile;
pub mod dart;
pub mod kite;
pub mod vertex;
pub mod laws;
pub mod dart_grid;
pub mod kite_grid;
