//! Middleware implementations for
//! [`compute_position`][`crate::compute_position::compute_position`].

pub mod arrow;
pub mod auto_placement;
pub mod flip;
pub mod hidden;
pub mod inline;
pub mod offset;
pub mod shift;
pub mod size;
