//! The abstraction over the graphics device: pipeline state and command
//! log, GPU object wrappers, and shader programs.

pub mod error;
pub mod framebuffer;
pub mod geometry_buffer;
pub mod gpu_program;
pub mod gpu_texture;
pub mod state;
