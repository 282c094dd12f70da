//! What the window system reports, reduced to what the viewer reads.

use crate::scalar::Scalar;
use vstd::prelude::*;

verus! {

/// A size in physical pixels.
#[derive(Clone, Copy, Debug, PartialEq, Eq, Structural)]
pub struct PhysicalSize {
    pub width: u32,
    pub height: u32,
}

impl PhysicalSize {
    /// Whether the size has an area: neither side is zero.
    pub open spec fn has_area(self) -> bool {
        self.width > 0 && self.height > 0
    }

    pub fn is_drawable(&self) -> (r: bool)
        ensures
            r == self.has_area(),
    {
        self.width > 0 && self.height > 0
    }
}

/// An event of the viewer's window.
#[derive(Clone, Copy, Debug, PartialEq, Eq, Structural)]
pub enum WindowEvent {
    /// The pointer moved to a position, in pixels.
    CursorMoved { x: Scalar, y: Scalar },
    /// The left button went down.
    LeftPressed,
    /// The left button came up.
    LeftReleased,
    /// The wheel turned by a number of lines; `y` is the vertical amount.
    WheelLines { y: Scalar },
    /// The wheel turned by a number of pixels.
    WheelPixels,
    /// The user asked to close the window.
    CloseRequested,
    /// The escape key went down.
    EscapePressed,
    /// The window has a new size.
    Resized(PhysicalSize),
    /// The scale factor changed, and the window has a new size with it.
    ScaleFactorChanged(PhysicalSize),
    /// Anything else.
    Other,
}

/// An event of the loop.
#[derive(Clone, Copy, Debug, PartialEq, Eq, Structural)]
pub enum Event {
    /// An event of the viewer's window.
    Window(WindowEvent),
    /// The window is to be drawn again.
    RedrawRequested,
    /// All events of this turn of the loop have been handed out.
    MainEventsCleared,
    /// Anything else, events of other windows among it.
    Other,
}

/// How an attempt to draw and present one frame ended.
#[derive(Clone, Copy, Debug, PartialEq, Eq, Structural)]
pub enum RenderOutcome {
    /// The frame was presented.
    Presented,
    /// The presentation target was lost.
    Lost,
    /// The device ran out of memory.
    OutOfMemory,
    /// Any other failure, such as a timeout or an outdated target.
    Failed,
}

} // verus!
