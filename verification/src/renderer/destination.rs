//! A placement rectangle.  A `Position` anchors a rectangle by one corner,
//! edge midpoint or center; a `Destination` adds the dimensions, and can
//! answer where each of its edges lies.

use crate::geom::{Vec2i, Vec2u};
use crate::renderer::align::{self, Alignment, Horizontal, Vertical};
use vstd::prelude::*;

verus! {

#[derive(Debug, Clone, Copy, PartialEq, Eq, Structural)]
pub struct Position {
    pub vertical: Alignment<Vertical>,
    pub horizontal: Alignment<Horizontal>,
}

impl Position {
    /// Attaches dimensions, yielding a full placement rectangle.
    pub fn dims(self, dims: Vec2u) -> (r: Destination)
        ensures
            r == (Destination { pos: self, dims }),
    {
        Destination { pos: self, dims }
    }

    /// Moves the anchor by `delta`, component by component.
    pub fn nudge(self, delta: Vec2i) -> (r: Position)
        requires
            i32::MIN <= self.vertical.pos + delta.y <= i32::MAX,
            i32::MIN <= self.horizontal.pos + delta.x <= i32::MAX,
        ensures
            r.vertical == (Alignment {
                align: self.vertical.align,
                pos: (self.vertical.pos + delta.y) as i32,
            }),
            r.horizontal == (Alignment {
                align: self.horizontal.align,
                pos: (self.horizontal.pos + delta.x) as i32,
            }),
    {
        Position { vertical: self.vertical.nudge(delta.y), horizontal: self.horizontal.nudge(delta.x) }
    }
}

#[derive(Debug, Clone, Copy, PartialEq, Eq, Structural)]
pub struct Destination {
    pub pos: Position,
    pub dims: Vec2u,
}

impl Destination {
    /// The edge arithmetic below stays within `i32`.
    pub open spec fn fits(self) -> bool {
        &&& self.dims.x <= i32::MAX
        &&& self.dims.y <= i32::MAX
        &&& i32::MIN <= self.pos.vertical.pos - self.dims.y
        &&& self.pos.vertical.pos + self.dims.y <= i32::MAX
        &&& i32::MIN <= self.pos.horizontal.pos - self.dims.x
        &&& self.pos.horizontal.pos + self.dims.x <= i32::MAX
    }

    pub open spec fn spec_top(self) -> int {
        match self.pos.vertical.align {
            Vertical::Top => self.pos.vertical.pos as int,
            Vertical::Middle => self.pos.vertical.pos - self.dims.y / 2,
            Vertical::Bottom => self.pos.vertical.pos - self.dims.y,
        }
    }

    pub open spec fn spec_middle(self) -> int {
        match self.pos.vertical.align {
            Vertical::Top => self.pos.vertical.pos + self.dims.y / 2,
            Vertical::Middle => self.pos.vertical.pos as int,
            Vertical::Bottom => self.pos.vertical.pos - self.dims.y / 2,
        }
    }

    pub open spec fn spec_bottom(self) -> int {
        match self.pos.vertical.align {
            Vertical::Top => self.pos.vertical.pos + self.dims.y,
            Vertical::Middle => self.pos.vertical.pos + self.dims.y / 2,
            Vertical::Bottom => self.pos.vertical.pos as int,
        }
    }

    pub open spec fn spec_left(self) -> int {
        match self.pos.horizontal.align {
            Horizontal::Left => self.pos.horizontal.pos as int,
            Horizontal::Center => self.pos.horizontal.pos - self.dims.x / 2,
            Horizontal::Right => self.pos.horizontal.pos - self.dims.x,
        }
    }

    pub open spec fn spec_center(self) -> int {
        match self.pos.horizontal.align {
            Horizontal::Left => self.pos.horizontal.pos + self.dims.x / 2,
            Horizontal::Center => self.pos.horizontal.pos as int,
            Horizontal::Right => self.pos.horizontal.pos - self.dims.x / 2,
        }
    }

    pub open spec fn spec_right(self) -> int {
        match self.pos.horizontal.align {
            Horizontal::Left => self.pos.horizontal.pos + self.dims.x,
            Horizontal::Center => self.pos.horizontal.pos + self.dims.x / 2,
            Horizontal::Right => self.pos.horizontal.pos as int,
        }
    }

    /// The y coordinate of the top edge.
    pub fn top(&self) -> (r: i32)
        requires
            self.fits(),
        ensures
            r == self.spec_top(),
    {
        let height: i32 = self.dims.y as i32;
        match self.pos.vertical.align {
            Vertical::Top => self.pos.vertical.pos,
            Vertical::Middle => self.pos.vertical.pos - height / 2,
            Vertical::Bottom => self.pos.vertical.pos - height,
        }
    }

    /// The y coordinate of the vertical midpoint.
    pub fn middle(&self) -> (r: i32)
        requires
            self.fits(),
        ensures
            r == self.spec_middle(),
    {
        let height: i32 = self.dims.y as i32;
        match self.pos.vertical.align {
            Vertical::Top => self.pos.vertical.pos + height / 2,
            Vertical::Middle => self.pos.vertical.pos,
            Vertical::Bottom => self.pos.vertical.pos - height / 2,
        }
    }

    /// The y coordinate of the bottom edge.
    pub fn bottom(&self) -> (r: i32)
        requires
            self.fits(),
        ensures
            r == self.spec_bottom(),
    {
        let height: i32 = self.dims.y as i32;
        match self.pos.vertical.align {
            Vertical::Top => self.pos.vertical.pos + height,
            Vertical::Middle => self.pos.vertical.pos + height / 2,
            Vertical::Bottom => self.pos.vertical.pos,
        }
    }

    /// The x coordinate of the left edge.
    pub fn left(&self) -> (r: i32)
        requires
            self.fits(),
        ensures
            r == self.spec_left(),
    {
        let width: i32 = self.dims.x as i32;
        match self.pos.horizontal.align {
            Horizontal::Left => self.pos.horizontal.pos,
            Horizontal::Center => self.pos.horizontal.pos - width / 2,
            Horizontal::Right => self.pos.horizontal.pos - width,
        }
    }

    /// The x coordinate of the horizontal midpoint.
    pub fn center(&self) -> (r: i32)
        requires
            self.fits(),
        ensures
            r == self.spec_center(),
    {
        let width: i32 = self.dims.x as i32;
        match self.pos.horizontal.align {
            Horizontal::Left => self.pos.horizontal.pos + width / 2,
            Horizontal::Center => self.pos.horizontal.pos,
            Horizontal::Right => self.pos.horizontal.pos - width / 2,
        }
    }

    /// The x coordinate of the right edge.
    pub fn right(&self) -> (r: i32)
        requires
            self.fits(),
        ensures
            r == self.spec_right(),
    {
        let width: i32 = self.dims.x as i32;
        match self.pos.horizontal.align {
            Horizontal::Left => self.pos.horizontal.pos + width,
            Horizontal::Center => self.pos.horizontal.pos + width / 2,
            Horizontal::Right => self.pos.horizontal.pos,
        }
    }

    /// Moves the anchor by `nudge`, keeping the dimensions.
    pub fn nudge(self, nudge: Vec2i) -> (r: Destination)
        requires
            i32::MIN <= self.pos.vertical.pos + nudge.y <= i32::MAX,
            i32::MIN <= self.pos.horizontal.pos + nudge.x <= i32::MAX,
        ensures
            r.dims == self.dims,
            r.pos.vertical == (Alignment {
                align: self.pos.vertical.align,
                pos: (self.pos.vertical.pos + nudge.y) as i32,
            }),
            r.pos.horizontal == (Alignment {
                align: self.pos.horizontal.align,
                pos: (self.pos.horizontal.pos + nudge.x) as i32,
            }),
    {
        let pos = self.pos.nudge(nudge);
        Destination { pos, dims: self.dims }
    }

    /// Multiplies the dimensions, keeping the anchor.
    pub fn scale(self, scale: u32) -> (r: Destination)
        requires
            self.dims.x * scale <= u32::MAX,
            self.dims.y * scale <= u32::MAX,
        ensures
            r.pos == self.pos,
            r.dims == (Vec2u { x: (self.dims.x * scale) as u32, y: (self.dims.y * scale) as u32 }),
    {
        let dims = Vec2u { x: self.dims.x * scale, y: self.dims.y * scale };
        Destination { dims, pos: self.pos }
    }

    /// The placement described by a signed rectangle: its top-left corner
    /// anchored, its width and height as dimensions.
    pub fn from_rect(rect: crate::geom::Vec4i) -> (r: Destination)
        requires
            rect.z >= 0,
            rect.w >= 0,
        ensures
            r == (Destination {
                pos: Position {
                    vertical: Alignment { align: Vertical::Top, pos: rect.y },
                    horizontal: Alignment { align: Horizontal::Left, pos: rect.x },
                },
                dims: Vec2u { x: rect.z as u32, y: rect.w as u32 },
            }),
    {
        let dims = Vec2u { x: rect.z as u32, y: rect.w as u32 };
        align::left(rect.x).top(rect.y).dims(dims)
    }
}

} // verus!
