//! Animated scenes of simple shapes, computed from the time alone.
//!
//! A scene is a field of particles whose attributes were drawn at random
//! once, a record of parameters that may be edited between frames, and a
//! function from the elapsed time to a list of shapes. Exactly one scene is
//! on at a time; [`artwork::Artwork`] holds them all and steps from one to
//! another.
//!
//! Every number is a whole count of millionths (see [`fixed`]), so that a
//! frame is exact and the same on every machine. What cannot be exact, the
//! sine and the cosine of an angle, is asked of the host: a scene tells the
//! angles of a frame, and takes their sines when it is asked for the shapes.

pub mod artwork;
pub mod bubble_art;
pub mod bubbles;
pub mod circle;
pub mod common;
pub mod draw;
pub mod fixed;
pub mod panel;
pub mod program;
pub mod rays;
pub mod summer_leaves;
