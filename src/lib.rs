//! Decision logic of a windowed triangle renderer: the swapchain policy, the
//! choice of a device's queue families, the per-frame scheduler and the
//! ordered rebuild of the render targets after the swapchain goes stale.
//!
//! Everything that talks to the GPU, the driver or the window stays with the
//! caller, which hands the outcome of each such call to these functions.

pub mod device_select;
pub mod diagnostics;
pub mod frame;
pub mod rebuild;
pub mod swapchain_policy;
