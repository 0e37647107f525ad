//! A first-person raycasting engine on integer fixed-point arithmetic.
//!
//! Positions and trigonometric values are fixed-point numbers with
//! `FRAC_BITS` fractional bits. The engine turns a player standing on a grid
//! of wall cells into one ray per screen column, and the ray results into a
//! row-major pixel buffer.

pub mod angle;
pub mod trig;
pub mod grid;
pub mod player;
pub mod raycast;
pub mod render;
pub mod engine;
