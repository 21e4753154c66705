//! Failure kinds of the rendering stack.
//!
//! Creation and operation failures propagate as values up to the frame-loop
//! driver; nothing is retried silently.  Two variants are raised by the
//! protocol itself: `SlotInFlight` when a ring slot's previous work has not
//! completed, and `QueueNotDrained` when buffers would be released while the
//! queue may still reference them.

use vstd::prelude::*;

verus! {

/// Everything that can go wrong while creating or driving the device,
/// swapchain, queue, fence and command objects.
#[derive(Clone, Copy, PartialEq, Eq, Structural, Debug)]
pub enum Error {
    AdapterNotFound,
    CreateFactoryFailed,
    CheckFeatureSupportFailed,
    PresentSwapChainFailed,
    GetBufferFromSwapChainFailed,
    CreateSwapChainFailed,
    ResizeSwapChainFailed,
    GetSwapChainDescFailed,
    CreateDeviceFailed,
    WarpAdapterNotSupported,
    SwapChainNotAvailable,
    MakeWindowAssociationFailed,
    CreateFenceFailed,
    SetFenceCompletionEventFailed,
    SignalFenceFailed,
    CreateDescriptorHeapFailed,
    CreateCommandQueueFailed,
    SignalCommandQueueFailed,
    CreateCommandAllocatorFailed,
    ResetCommandAllocatorFailed,
    CreateGraphicsCommandListFailed,
    CloseGraphicsCommandListFailed,
    ResetGraphicsCommandListFailed,
    MultiSamplingSupportCheckFailed,
    SlotInFlight,
    QueueNotDrained,
}

/// The diagnostic text of each failure kind.
pub open spec fn error_text(e: Error) -> Seq<char> {
    match e {
        Error::AdapterNotFound => "adapter not found"@,
        Error::CreateFactoryFailed => "failed to create factory"@,
        Error::CheckFeatureSupportFailed => "failed to check for feature support"@,
        Error::PresentSwapChainFailed => "failed to present the swapchain"@,
        Error::GetBufferFromSwapChainFailed => "failed to get buffer resource from swapchain"@,
        Error::CreateSwapChainFailed => "failed to create the swapchain"@,
        Error::ResizeSwapChainFailed => "failed to resize the swapchain"@,
        Error::GetSwapChainDescFailed => "failed to get swapchain description"@,
        Error::CreateDeviceFailed => "failed to create a device"@,
        Error::WarpAdapterNotSupported => "warp adapter not supported"@,
        Error::SwapChainNotAvailable => "swap chain not available"@,
        Error::MakeWindowAssociationFailed => "failed to make window associtation"@,
        Error::CreateFenceFailed => "failed to create fence"@,
        Error::SetFenceCompletionEventFailed => "failed to set a fence completion event"@,
        Error::SignalFenceFailed => "failed to signal fence"@,
        Error::CreateDescriptorHeapFailed => "failed to create descriptor heap"@,
        Error::CreateCommandQueueFailed => "failed to create a command queue"@,
        Error::SignalCommandQueueFailed => "failed to signal command queue"@,
        Error::CreateCommandAllocatorFailed => "failed to create a commamd locator"@,
        Error::ResetCommandAllocatorFailed => "failed to reset command allocator"@,
        Error::CreateGraphicsCommandListFailed => "failed to create a graphics command list"@,
        Error::CloseGraphicsCommandListFailed => "failed to close graphics command list"@,
        Error::ResetGraphicsCommandListFailed => "failed to reset graphics command list"@,
        Error::MultiSamplingSupportCheckFailed => "failed to check for multisampling support"@,
        Error::SlotInFlight => "ring slot still in flight"@,
        Error::QueueNotDrained => "submission queue not drained"@,
    }
}

impl Error {
    /// The diagnostic text of this failure kind.
    pub fn as_str(&self) -> (r: &'static str)
        ensures
            r@ == error_text(*self),
    {
        match *self {
            Error::AdapterNotFound => "adapter not found",
            Error::CreateFactoryFailed => "failed to create factory",
            Error::CheckFeatureSupportFailed => "failed to check for feature support",
            Error::PresentSwapChainFailed => "failed to present the swapchain",
            Error::GetBufferFromSwapChainFailed => "failed to get buffer resource from swapchain",
            Error::CreateSwapChainFailed => "failed to create the swapchain",
            Error::ResizeSwapChainFailed => "failed to resize the swapchain",
            Error::GetSwapChainDescFailed => "failed to get swapchain description",
            Error::CreateDeviceFailed => "failed to create a device",
            Error::WarpAdapterNotSupported => "warp adapter not supported",
            Error::SwapChainNotAvailable => "swap chain not available",
            Error::MakeWindowAssociationFailed => "failed to make window associtation",
            Error::CreateFenceFailed => "failed to create fence",
            Error::SetFenceCompletionEventFailed => "failed to set a fence completion event",
            Error::SignalFenceFailed => "failed to signal fence",
            Error::CreateDescriptorHeapFailed => "failed to create descriptor heap",
            Error::CreateCommandQueueFailed => "failed to create a command queue",
            Error::SignalCommandQueueFailed => "failed to signal command queue",
            Error::CreateCommandAllocatorFailed => "failed to create a commamd locator",
            Error::ResetCommandAllocatorFailed => "failed to reset command allocator",
            Error::CreateGraphicsCommandListFailed => "failed to create a graphics command list",
            Error::CloseGraphicsCommandListFailed => "failed to close graphics command list",
            Error::ResetGraphicsCommandListFailed => "failed to reset graphics command list",
            Error::MultiSamplingSupportCheckFailed => "failed to check for multisampling support",
            Error::SlotInFlight => "ring slot still in flight",
            Error::QueueNotDrained => "submission queue not drained",
        }
    }
}

} // verus!
