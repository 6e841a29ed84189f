//! Core logic of a swapchain-based rendering backend: surface-parameter
//! selection, the frame-synchronization protocol, command-recording plans,
//! and ordered teardown, all verified over plain values. The actual GPU
//! calls live outside this crate and are driven by the decisions made here.

pub mod config;
pub mod device;
pub mod error;
pub mod facade;
pub mod pipeline;
pub mod recorder;
pub mod surface;
pub mod swapchain;
pub mod sync;
