use vstd::prelude::*;

verus! {

/// The ways in which device selection and swapchain negotiation can fail.
#[derive(Clone, Copy, Debug, PartialEq, Eq, Structural)]
pub enum SetupError {
    /// The runtime could not report presentation support or surface capabilities.
    UnsupportedSurface,
    /// No enumerated device passes the suitability check.
    NoSuitableDevice,
    /// The logical device request was rejected.
    DeviceCreation,
    /// The negotiated swapchain configuration was rejected.
    SwapchainCreation,
    /// Graphics and presentation families could not both be resolved.
    IncompleteQueueResolution,
}

} // verus!
