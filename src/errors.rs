use vstd::prelude::*;

verus! {

/// No enumerated device has the required extensions and a queue family that
/// supports both graphics and presentation to the surface.
#[derive(Clone, Copy, Debug, PartialEq, Eq, Structural)]
pub struct NoSuitableDeviceError;

impl NoSuitableDeviceError {
    /// The human-readable description of this failure.
    pub fn message(&self) -> (r: String)
        ensures
            r@ == "No vulkan capable devices found."@,
    {
        String::from_str("No vulkan capable devices found.")
    }
}

/// Why the runtime refused to open a logical device.
#[derive(Clone, Copy, Debug, PartialEq, Eq, Structural)]
pub enum DeviceCreationError {
    InitializationFailed,
    TooManyObjects,
    DeviceLost,
    FeatureNotPresent,
    ExtensionNotPresent,
    TooManyQueuesForFamily,
    PriorityOutOfRange,
    OutOfHostMemory,
    OutOfDeviceMemory,
    ExtensionRestrictionNotMet,
    FeatureRestrictionNotMet,
}

/// Why no presentation chain could be planned or built.
#[derive(Clone, Copy, Debug, PartialEq, Eq, Structural)]
pub enum SwapchainCreationError {
    /// The surface reported no capabilities for the chosen device.
    CapabilitiesUnavailable,
    /// The surface reported no supported format.
    NoSupportedFormat,
    /// The surface reported no supported composite alpha mode.
    NoCompositeAlpha,
    /// The reported maximum image count lies below the reported minimum.
    ImageCountRangeEmpty,
    /// The runtime refused to build the chain.
    BuildRejected,
}

/// The stage at which engine construction failed, with its cause.
#[derive(Clone, Copy, Debug, PartialEq, Eq, Structural)]
pub enum EngineError {
    InstanceCreation,
    SurfaceCreation,
    NoSuitableDevice(NoSuitableDeviceError),
    DeviceCreation(DeviceCreationError),
    SwapchainCreation(SwapchainCreationError),
}

} // verus!
