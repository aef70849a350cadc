//! Verified core of a real-time rendering pipeline: an abstract graphics
//! device with a cached pipeline state, GPU resource wrappers and caches,
//! and the render passes built on top of them (high-dynamic-range tone
//! mapping with temporal eye adaptation, point-light cube-map shadows, and
//! an immediate-mode UI compositor).
//!
//! The device is modelled explicitly: every state change and draw is
//! recorded as a [`framework::state::DeviceCommand`], and the pipeline
//! state elides redundant changes. An unverified backend replays the
//! command log against a real graphics context.

pub mod batch;
pub mod brush;
pub mod cache;
pub mod fixed;
pub mod formatted_text;
pub mod framework;
pub mod hdr;
pub mod math;
pub mod model;
pub mod physics;
pub mod scene;
pub mod shadow;
pub mod sprite_renderer;
pub mod ui_renderer;
pub mod stats;
