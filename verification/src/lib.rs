//! Drawable objects for an immediate-mode graphics context.
//!
//! A render object owns its GPU-side resources for life and carries the state
//! that changes from frame to frame: the canvas, its placement and the latest
//! user input. The library decides what the graphics context is told to do and
//! in which order; it hands that out as a list of commands. Performing the
//! commands, and every computation that rounds, is left to the caller.

pub mod canvas;
pub mod command;
pub mod handles;
pub mod input;
pub mod matrix;
pub mod programs;
pub mod render_object;
pub mod scalar;
pub mod shader;
pub mod transform;

pub use render_object::RenderObjectTrait;
