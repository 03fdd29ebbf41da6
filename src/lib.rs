//! Device selection and presentation-chain planning for a windowed renderer.
//!
//! The library works on plain snapshots of what the graphics runtime reports
//! (device types, extension names, queue families, surface capabilities) and
//! decides which device and queue family to open and which parameters the
//! presentation chain gets.
pub mod catalog;
pub mod device;
pub mod engine;
pub mod errors;
pub mod swapchain;

pub use catalog::{enabled_device_extensions, required_device_extensions, supports_extensions};
pub use device::{
    device_score, first_presentable_family, select_device, DeviceSelection, DeviceType,
    PhysicalDeviceInfo, QueueFamilyInfo,
};
pub use engine::{next_stage, Stage, StepOutcome};
pub use errors::{DeviceCreationError, EngineError, NoSuitableDeviceError, SwapchainCreationError};
pub use swapchain::{
    derive_swapchain_config, CompositeAlpha, Extent, SurfaceCapabilities, SurfaceFormat,
    SwapchainConfig,
};
