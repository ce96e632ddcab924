//! Device and presentation capability negotiation for a swapchain-based
//! renderer: queue-family resolution, physical-device scoring and selection,
//! surface-parameter negotiation (format, present mode, extent, image count,
//! sharing mode), and ordered resource teardown planning.
//!
//! The platform's graphics API is driven by the surrounding application; this
//! crate holds the decision logic on plain values queried from it.

pub mod device;
pub mod queue;
pub mod surface;
pub mod swapchain;
pub mod teardown;
