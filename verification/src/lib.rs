//! Verified decision logic of a set of Vulkan / wgpu learning programs:
//! memory-type selection, swapchain configuration, physical-device and
//! queue-family selection, instance setup, frame pacing, SPIR-V loading and
//! the per-frame event handling of the windowed applications.

pub mod api_version;
pub mod circle;
pub mod device;
pub mod events;
pub mod frame;
pub mod instance;
pub mod memory;
pub mod spirv;
pub mod surface;
pub mod surface_state;
pub mod texture;
