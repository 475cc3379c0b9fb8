//! Deferred command-recording core for a real-time 3D renderer.
//!
//! Application code issues draw, texture, light and matrix calls against an
//! immediate-style interface; the core buffers per-draw state into
//! monotonically growing frame arenas and records an ordered command list.
//! Once per frame the command list is replayed into the minimal sequence of
//! abstract pipeline/resource binds and draw calls needed to reproduce the
//! recorded draw order; an unverified shell maps those actions onto a real
//! graphics device.

pub mod lights;
pub mod mesh;
pub mod pipeline;
pub mod virtual_gpu;
pub mod virtual_render_pass;
