//! What a presentation surface reports to the swapchain that will be built
//! on it.

use crate::vulkan::{PresentMode, SurfaceCapabilities, SurfaceFormat};
use vstd::prelude::*;

verus! {

/// A snapshot of a surface's capabilities, formats and present modes for one
/// adapter. It is taken anew whenever a swapchain is built, since all three
/// can change with the window.
#[derive(Debug)]
pub struct SwapChainSupportDetails {
    pub capabilities: SurfaceCapabilities,
    pub formats: Vec<SurfaceFormat>,
    pub present_modes: Vec<PresentMode>,
}

impl SwapChainSupportDetails {
    /// A swapchain can be built: the surface names a format and a present
    /// mode.
    pub open spec fn adequate(&self) -> bool {
        self.formats.len() > 0 && self.present_modes.len() > 0
    }

    /// Whether the surface names at least one format and one present mode.
    pub fn is_adequate(&self) -> (adequate: bool)
        ensures
            adequate == self.adequate(),
    {
        self.formats.len() > 0 && self.present_modes.len() > 0
    }
}

} // verus!
