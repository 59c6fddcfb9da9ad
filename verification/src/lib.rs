//! Verified core of a fast moving 2D mist renderer.
//!
//! The rendering glue (ECS systems, GPU resources, shaders and floating point
//! colour math) lives outside this crate; what is kept here are the decisions
//! that glue takes: how mist phase items are keyed, which noise textures have
//! to be generated or dropped, which camera views keep a mist phase, and how
//! the noise texture bytes are laid out.

pub mod noise;
pub mod phase;
pub mod view;
