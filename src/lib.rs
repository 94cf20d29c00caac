//! Planning and checking for a two-stage GPU image pipeline: a compute stage
//! writes an intermediate texture that a render stage then samples onto the
//! presentation surface, once per frame.
//!
//! Everything here works on plain values (sizes, usage bits, binding tables,
//! byte images of uniform blocks, command sequences); the code that talks to
//! the GPU replays what this library decides.

pub mod dispatch;
pub mod bytes;
pub mod error;
pub mod layout;
pub mod uniform;
pub mod model;
pub mod binding;
pub mod resources;
pub mod pipeline;
pub mod frame;
