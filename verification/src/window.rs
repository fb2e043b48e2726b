//! The part of a window that the renderer reads: its size and whether it has
//! been resized since the renderer last looked.

use crate::vulkan::Extent2D;
use vstd::prelude::*;

verus! {

/// Why a window has no extent to offer.
#[derive(Clone, Copy, PartialEq, Eq, Debug, Structural)]
pub enum WindowError {
    /// A side of the window is negative.
    NegativeSize,
}

/// The size of a window and its resize flag.
#[derive(Clone, Copy, PartialEq, Eq, Debug, Structural)]
pub struct Window {
    pub width: i32,
    pub height: i32,
    pub framebuffer_resized: bool,
}

/// What a look at the window's extent tells a renderer that wants to build a
/// swapchain.
#[derive(Clone, Copy, PartialEq, Eq, Debug, Structural)]
pub enum ExtentPoll {
    /// The window has no area, as when it is minimised: nothing can be
    /// built yet. The host's event loop should block until the next event
    /// rather than spin, and the window is to be looked at again.
    Wait,
    /// The window has area: build at this extent.
    Ready(Extent2D),
}

impl Window {
    /// The extent of the window, where both sides can be one.
    pub open spec fn extent_of(self) -> Result<Extent2D, WindowError> {
        if self.width < 0 || self.height < 0 {
            Err(WindowError::NegativeSize)
        } else {
            Ok(Extent2D { width: self.width as u32, height: self.height as u32 })
        }
    }

    /// What a renderer waiting to build a swapchain does with the window as
    /// it is now.
    pub open spec fn polled(self) -> Result<ExtentPoll, WindowError> {
        match self.extent_of() {
            Ok(extent) => Ok(
                if extent.has_area() {
                    ExtentPoll::Ready(extent)
                } else {
                    ExtentPoll::Wait
                },
            ),
            Err(error) => Err(error),
        }
    }

    /// A window of the given size that has not been resized.
    pub fn new(width: i32, height: i32) -> (window: Window)
        ensures
            window == (Window { width, height, framebuffer_resized: false }),
    {
        Window { width, height, framebuffer_resized: false }
    }

    /// The drawable extent.
    pub fn extent(&self) -> (extent: Result<Extent2D, WindowError>)
        ensures
            extent == self.extent_of(),
    {
        if self.width < 0 || self.height < 0 {
            Err(WindowError::NegativeSize)
        } else {
            Ok(Extent2D { width: self.width as u32, height: self.height as u32 })
        }
    }

    /// Whether the window was resized since the flag was last reset.
    pub fn was_window_resized(&self) -> (resized: bool)
        ensures
            resized == self.framebuffer_resized,
    {
        self.framebuffer_resized
    }

    /// Forgets that the window was resized.
    pub fn reset_window_resized_flag(&mut self)
        ensures
            *final(self) == (Window { framebuffer_resized: false, ..*old(self) }),
    {
        self.framebuffer_resized = false;
    }

    /// Takes note of a new size.
    pub fn framebuffer_resized(&mut self, width: i32, height: i32)
        ensures
            *final(self) == (Window { width, height, framebuffer_resized: true }),
    {
        self.framebuffer_resized = true;
        self.width = width;
        self.height = height;
    }

    /// Looks at the window on behalf of a renderer that wants to build a
    /// swapchain: it may go ahead only at an extent with area.
    pub fn poll_extent(&self) -> (poll: Result<ExtentPoll, WindowError>)
        ensures
            poll == self.polled(),
    {
        match self.extent() {
            Ok(extent) => {
                if extent.is_drawable() {
                    Ok(ExtentPoll::Ready(extent))
                } else {
                    Ok(ExtentPoll::Wait)
                }
            },
            Err(error) => Err(error),
        }
    }
}

/// Runs the wait for a drawable extent over a recorded series of looks at
/// the window and says at which look it ends and with which extent. The
/// wait never ends at a look that shows no area, nor after one that shows
/// some.
pub fn await_drawable_extent(polls: &Vec<Extent2D>) -> (ready: Option<(usize, Extent2D)>)
    ensures
        match ready {
            Some((look, extent)) => {
                &&& look < polls.len()
                &&& extent == polls[look as int]
                &&& extent.has_area()
                &&& forall|j: int| 0 <= j < look ==> !(#[trigger] polls[j]).has_area()
            },
            None => forall|j: int| 0 <= j < polls.len() ==> !(#[trigger] polls[j]).has_area(),
        },
{
    let mut look: usize = 0;
    while look < polls.len()
        invariant
            look <= polls.len(),
            forall|j: int| 0 <= j < look ==> !(#[trigger] polls[j]).has_area(),
        decreases polls.len() - look,
    {
        let extent = polls[look];
        if extent.is_drawable() {
            return Some((look, extent));
        }
        look += 1;
    }
    None
}

} // verus!
