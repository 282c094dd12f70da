//! Pointer state and the centre of the view.

use crate::scalar::Scalar;
use vstd::prelude::*;

verus! {

/// Pattern of -0.765, the horizontal centre a new view starts at.
pub const START_CENTRE_X: u32 = 0xbf43_d70a;

/// Whether the left button holds the view.
#[derive(Clone, Copy, Debug, PartialEq, Eq, Structural)]
pub enum Drag {
    /// The button has not been pressed yet.
    Idle,
    /// The button is down: pointer moves pan the view.
    Dragging,
    /// The button was let go.
    Released,
}

impl Drag {
    /// The number the shader sees for the flag.
    pub open spec fn code(self) -> i32 {
        match self {
            Drag::Idle => -1i32,
            Drag::Dragging => 1i32,
            Drag::Released => 0i32,
        }
    }

    pub fn to_code(self) -> (r: i32)
        ensures
            r == self.code(),
    {
        match self {
            Drag::Idle => -1,
            Drag::Dragging => 1,
            Drag::Released => 0,
        }
    }
}

/// What the pan arithmetic reads: the last two pointer positions, the centre
/// they move, and the scale of the move.
#[derive(Clone, Copy, Debug, PartialEq, Eq, Structural)]
pub struct PanInput {
    pub x: Scalar,
    pub y: Scalar,
    pub px: Scalar,
    pub py: Scalar,
    pub centre_x: Scalar,
    pub centre_y: Scalar,
    pub width: Scalar,
    pub height: Scalar,
    pub axis_range: Scalar,
}

/// The pointer: its position, the position before it, the drag flag, and the
/// centre of the view that dragging moves.
#[derive(Clone, Copy, Debug, PartialEq, Eq, Structural)]
pub struct Mouse {
    pub x: Scalar,
    pub y: Scalar,
    pub drag: Drag,
    pub px: Scalar,
    pub py: Scalar,
    pub centre_x: Scalar,
    pub centre_y: Scalar,
}

impl Mouse {
    /// The pointer of a new view.
    pub open spec fn initial() -> Mouse {
        Mouse {
            x: Scalar { bits: 0 },
            y: Scalar { bits: 0 },
            drag: Drag::Idle,
            px: Scalar { bits: 0 },
            py: Scalar { bits: 0 },
            centre_x: Scalar { bits: 0xbf43_d70a },
            centre_y: Scalar { bits: 0 },
        }
    }

    /// The pointer after a move to `(x, y)`: the position held so far becomes
    /// the previous one, and the new one is stored negated.
    pub open spec fn moved(self, x: Scalar, y: Scalar) -> Mouse {
        Mouse { px: self.x, py: self.y, x: x.neg(), y: y.neg(), ..self }
    }

    /// The pointer after a pan to the given centre: the centre is taken over
    /// while dragging, and nothing changes otherwise.
    pub open spec fn panned(self, centre_x: Scalar, centre_y: Scalar) -> Mouse {
        if self.drag == Drag::Dragging {
            Mouse { centre_x, centre_y, ..self }
        } else {
            self
        }
    }

    /// What a pan reads from this pointer at the given resolution and scale.
    pub open spec fn pan_values(self, width: Scalar, height: Scalar, axis_range: Scalar)
        -> PanInput {
        PanInput {
            x: self.x,
            y: self.y,
            px: self.px,
            py: self.py,
            centre_x: self.centre_x,
            centre_y: self.centre_y,
            width,
            height,
            axis_range,
        }
    }

    pub fn new() -> (r: Mouse)
        ensures
            r == Mouse::initial(),
    {
        Mouse {
            x: Scalar { bits: 0 },
            y: Scalar { bits: 0 },
            drag: Drag::Idle,
            px: Scalar { bits: 0 },
            py: Scalar { bits: 0 },
            centre_x: Scalar { bits: START_CENTRE_X },
            centre_y: Scalar { bits: 0 },
        }
    }

    /// The left button went down.
    pub fn set_drag(&mut self)
        ensures
            *final(self) == (Mouse { drag: Drag::Dragging, ..*old(self) }),
    {
        self.drag = Drag::Dragging;
    }

    /// The left button came up.
    pub fn unset_drag(&mut self)
        ensures
            *final(self) == (Mouse { drag: Drag::Released, ..*old(self) }),
    {
        self.drag = Drag::Released;
    }

    /// The pointer moved to `(x, y)`.
    pub fn update_position(&mut self, x: Scalar, y: Scalar)
        ensures
            *final(self) == old(self).moved(x, y),
    {
        self.px = self.x;
        self.py = self.y;
        self.x = x.negated();
        self.y = y.negated();
    }

    /// What the pan arithmetic is to read, while dragging; nothing otherwise.
    pub fn pan_input(&self, width: Scalar, height: Scalar, axis_range: Scalar) -> (r: Option<
        PanInput,
    >)
        ensures
            r == if self.drag == Drag::Dragging {
                Some(self.pan_values(width, height, axis_range))
            } else {
                None
            },
    {
        match self.drag {
            Drag::Dragging => Some(
                PanInput {
                    x: self.x,
                    y: self.y,
                    px: self.px,
                    py: self.py,
                    centre_x: self.centre_x,
                    centre_y: self.centre_y,
                    width,
                    height,
                    axis_range,
                },
            ),
            _ => None,
        }
    }

    /// Moves the centre to where the pan arithmetic put it. Only a pointer
    /// that is dragging takes the new centre.
    pub fn drag_mouse(&mut self, centre_x: Scalar, centre_y: Scalar)
        ensures
            *final(self) == old(self).panned(centre_x, centre_y),
    {
        match self.drag {
            Drag::Dragging => {
                self.centre_x = centre_x;
                self.centre_y = centre_y;
            },
            _ => {},
        }
    }
}

} // verus!
