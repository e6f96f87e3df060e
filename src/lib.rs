//! Terrain collision and surface geometry on a grid of analytic shapes.
//!
//! Lengths are integers in a unit that the caller picks (millimetres, say).
//! Contacts are reported in exact form (see [`geometry::Interference`]), so
//! that every decision taken on a query is proved on exact values.

pub mod geometry;
pub mod mirror;
pub mod rotate;
pub mod step;
pub mod step_slope;
pub mod slope;
pub mod plane;
pub mod terrain;
pub mod mesh;
pub mod examples;
