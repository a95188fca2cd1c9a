//! The decision core of a small real-time renderer.
//!
//! The host owns the window, the surface and the device, and performs every
//! call on them. This library decides what those calls are: how a device is
//! negotiated, what the triangle pipeline looks like, and which commands make
//! up a frame.

pub mod color;
pub mod command;
pub mod device;
pub mod laws;
pub mod pipeline;
pub mod renderer;
pub mod setup;
pub mod surface;
pub mod vertex;
