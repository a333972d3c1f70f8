//! Verified core of a real-time presentation loop: the swapchain lifecycle
//! state machine, per-frame allocation accounting, command recording, and the
//! frame driver that orders acquisition, execution, and presentation.
//!
//! The library works on plain values. The surrounding application performs the
//! actual device, window, and GPU calls and feeds their outcomes back in; every
//! decision those calls depend on is made, and proved correct, here.

pub mod allocator;
pub mod device;
pub mod driver;
pub mod extent;
pub mod geometry;
pub mod laws;
pub mod pipeline;
pub mod recorder;
pub mod surface;
pub mod swapchain;

pub use extent::Extent;
