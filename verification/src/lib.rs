//! Core of a progressive GPU ray tracer: the host-side logic that sizes and
//! versions the GPU resources, packs per-frame scene data into the exact byte
//! layout the compute kernel expects, fits the render target into the
//! available UI area, drives the per-frame prepare/paint protocol, and strips
//! row padding from exported images.
//!
//! The GPU device itself, the windowing loop and the compiled shader programs
//! are external collaborators: this crate computes every value handed to them
//! and proves the invariants those values must satisfy.

pub mod layout;
pub mod scene;
pub mod fit;
pub mod rng;
pub mod frame;
pub mod export;
pub mod pipeline;
pub mod bundle;
