//! The failures that end a renderer.
use vstd::prelude::*;

verus! {

/// A failure the renderer cannot recover from. The caller is expected to
/// stop with `message()`; no state is unwound.
#[derive(Clone, Copy, Debug, PartialEq, Eq, Structural)]
pub enum RendererError {
    /// No physical device has a queue family that both draws and presents.
    NoSuitableDevice,
    /// The chosen device lacks a graphics, transfer or present family.
    NoSuitableQueueFamily,
    /// The surface offers neither the preferred format nor the fallback.
    NoSurfaceFormat,
    /// No memory type is allowed by the filter and has the wanted properties.
    NoMemoryType,
    /// A renderer needs at least one frame in flight.
    NoFramesInFlight,
    /// The swapchain came back without images.
    NoSwapchainImages,
    /// More swapchain images than uniform buffers and descriptor sets.
    TooManyImages,
    /// The parts handed over were not built for one another.
    MismatchedParts,
    /// The index list is empty.
    NoIndices,
    /// A count or byte size does not fit the width the API gives it.
    TooLarge,
    /// The image index does not name a swapchain image.
    ImageIndexOutOfRange,
    /// Acquiring the next image failed for a reason other than staleness.
    AcquireFailed,
    /// Presenting failed for a reason other than staleness.
    PresentFailed,
    /// The step does not fit the phase the renderer is in.
    OutOfSequence,
    /// The generation counter cannot be advanced any further.
    GenerationExhausted,
}

impl RendererError {
    /// The text to stop with.
    pub fn message(&self) -> (text: &'static str)
        ensures
            text@ == self.message_spec(),
    {
        match self {
            RendererError::NoSuitableDevice => "Failed to find suitable device.",
            RendererError::NoSuitableQueueFamily => "Failed to find suitable queue family.",
            RendererError::NoSurfaceFormat => "Failed to choose a surface format.",
            RendererError::NoMemoryType => "Failed to find suitable memory type!",
            RendererError::NoFramesInFlight => "Failed to create synchroniser without frames.",
            RendererError::NoSwapchainImages => "Failed to acquire swapchain images.",
            RendererError::TooManyImages => "Failed to match swapchain images to uniform buffers.",
            RendererError::MismatchedParts => "Failed to assemble renderer from mismatched parts.",
            RendererError::NoIndices => "Failed to upload empty index list.",
            RendererError::TooLarge => "Failed to fit a size into the range of the API.",
            RendererError::ImageIndexOutOfRange => "Failed to find acquired image.",
            RendererError::AcquireFailed => "Failed to acquire next image.",
            RendererError::PresentFailed => "Failed to present frame.",
            RendererError::OutOfSequence => "Failed to take a step out of sequence.",
            RendererError::GenerationExhausted => "Failed to advance the generation.",
        }
    }

    /// The text of each failure.
    pub open spec fn message_spec(&self) -> Seq<char> {
        match self {
            RendererError::NoSuitableDevice => "Failed to find suitable device."@,
            RendererError::NoSuitableQueueFamily => "Failed to find suitable queue family."@,
            RendererError::NoSurfaceFormat => "Failed to choose a surface format."@,
            RendererError::NoMemoryType => "Failed to find suitable memory type!"@,
            RendererError::NoFramesInFlight => "Failed to create synchroniser without frames."@,
            RendererError::NoSwapchainImages => "Failed to acquire swapchain images."@,
            RendererError::TooManyImages => "Failed to match swapchain images to uniform buffers."@,
            RendererError::MismatchedParts => "Failed to assemble renderer from mismatched parts."@,
            RendererError::NoIndices => "Failed to upload empty index list."@,
            RendererError::TooLarge => "Failed to fit a size into the range of the API."@,
            RendererError::ImageIndexOutOfRange => "Failed to find acquired image."@,
            RendererError::AcquireFailed => "Failed to acquire next image."@,
            RendererError::PresentFailed => "Failed to present frame."@,
            RendererError::OutOfSequence => "Failed to take a step out of sequence."@,
            RendererError::GenerationExhausted => "Failed to advance the generation."@,
        }
    }
}

} // verus!
