use vstd::prelude::*;

verus! {

/// Failures that the engine reports to the driver of the frame loop.
#[derive(Debug, Clone, Copy, PartialEq, Eq, Structural)]
pub enum EngineError {
    /// No memory type is both allowed by the resource and has the requested properties.
    NoSuitableMemoryType,
    /// The pair of image layouts has no entry in the transition table.
    UnsupportedLayoutTransition,
    /// Acquiring an image reported that the swapchain no longer matches the surface.
    SwapchainOutOfDate,
    /// Acquiring an image failed for another reason; the device's result code is kept.
    AcquireFailed(i32),
    /// Presenting reported a suboptimal swapchain, which must be rebuilt.
    SwapchainInvalid,
    /// The swapchain handed out an image index that the engine does not track.
    ImageIndexOutOfRange,
    /// The surface offers no format to build a swapchain with.
    NoSuitableFormat,
    /// The surface offers no present mode.
    NoSuitablePresentMode,
    /// No physical device meets the engine's needs.
    NoSuitableDevice,
    /// A queue family that the engine needs was not found.
    MissingQueueFamily,
    /// A shader binary is not a SPIR-V module.
    InvalidShaderCode,
}

} // verus!
