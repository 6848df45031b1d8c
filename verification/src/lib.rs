//! Host-side core of an interactive GPU demo framework.
//!
//! The crate decides and the host carries out. Everything here works on
//! plain values and on value types of `wgpu` and `winit`, and hands the host
//! exact descriptions of the GPU and window-system work to perform: which
//! surface configuration to apply, which buffers and bindings to create,
//! which copy to record, and what to do for each signal of the event loop.

pub mod binding;
pub mod demo;
pub mod event;
pub mod format;
pub mod lifecycle;
pub mod surface;
pub mod uniform;

pub use binding::UniformBinding;
pub use demo::Demo;
pub use lifecycle::{run, App};
pub use surface::Display;
pub use uniform::{CameraUniform, UniformData};
