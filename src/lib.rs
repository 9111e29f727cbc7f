//! Geometry and shading for a terminal falling-block puzzle: piece shapes as
//! 4x4 occupancy masks, rotation, integer coordinate spaces and fixed-point
//! color scaling.
pub mod color;
pub mod coord_space;
pub mod piece;
pub mod tetromino;
