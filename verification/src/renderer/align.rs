//! Anchored coordinates.  An `Alignment` pins one coordinate of a
//! rectangle to a position: a vertical alignment says which horizontal
//! edge (top, middle, bottom) sits at `pos`, a horizontal alignment says
//! which vertical edge (left, center, right) does.

use crate::renderer::destination::Position;
use vstd::prelude::*;

verus! {

#[derive(Debug, Clone, Copy, PartialEq, Eq, Structural)]
pub enum Vertical {
    Top,
    Middle,
    Bottom,
}

#[derive(Debug, Clone, Copy, PartialEq, Eq, Structural)]
pub enum Horizontal {
    Left,
    Center,
    Right,
}

#[derive(Debug, Clone, Copy, PartialEq, Eq, Structural)]
pub struct Alignment<T> {
    pub align: T,
    pub pos: i32,
}

impl<T> Alignment<T> {
    /// Moves the anchored position by `delta`.
    pub fn nudge(self, delta: i32) -> (r: Alignment<T>)
        requires
            i32::MIN <= self.pos + delta <= i32::MAX,
        ensures
            r.align == self.align,
            r.pos == self.pos + delta,
    {
        Alignment { align: self.align, pos: self.pos + delta }
    }
}

impl Alignment<Vertical> {
    /// Pairs this vertical anchor with a left edge at `pos`.
    pub fn left(self, pos: i32) -> (r: Position)
        ensures
            r.vertical == self,
            r.horizontal == (Alignment { align: Horizontal::Left, pos }),
    {
        Position { horizontal: left(pos), vertical: self }
    }

    /// Pairs this vertical anchor with a horizontal center at `pos`.
    pub fn center(self, pos: i32) -> (r: Position)
        ensures
            r.vertical == self,
            r.horizontal == (Alignment { align: Horizontal::Center, pos }),
    {
        Position { horizontal: center(pos), vertical: self }
    }

    /// Pairs this vertical anchor with a right edge at `pos`.
    pub fn right(self, pos: i32) -> (r: Position)
        ensures
            r.vertical == self,
            r.horizontal == (Alignment { align: Horizontal::Right, pos }),
    {
        Position { horizontal: right(pos), vertical: self }
    }
}

impl Alignment<Horizontal> {
    /// Pairs this horizontal anchor with a top edge at `pos`.
    pub fn top(self, pos: i32) -> (r: Position)
        ensures
            r.horizontal == self,
            r.vertical == (Alignment { align: Vertical::Top, pos }),
    {
        Position { vertical: top(pos), horizontal: self }
    }

    /// Pairs this horizontal anchor with a vertical middle at `pos`.
    pub fn middle(self, pos: i32) -> (r: Position)
        ensures
            r.horizontal == self,
            r.vertical == (Alignment { align: Vertical::Middle, pos }),
    {
        Position { vertical: middle(pos), horizontal: self }
    }

    /// Pairs this horizontal anchor with a bottom edge at `pos`.
    pub fn bottom(self, pos: i32) -> (r: Position)
        ensures
            r.horizontal == self,
            r.vertical == (Alignment { align: Vertical::Bottom, pos }),
    {
        Position { vertical: bottom(pos), horizontal: self }
    }
}

pub fn top(pos: i32) -> (r: Alignment<Vertical>)
    ensures
        r == (Alignment { align: Vertical::Top, pos }),
{
    Alignment { pos, align: Vertical::Top }
}

pub fn middle(pos: i32) -> (r: Alignment<Vertical>)
    ensures
        r == (Alignment { align: Vertical::Middle, pos }),
{
    Alignment { pos, align: Vertical::Middle }
}

pub fn bottom(pos: i32) -> (r: Alignment<Vertical>)
    ensures
        r == (Alignment { align: Vertical::Bottom, pos }),
{
    Alignment { pos, align: Vertical::Bottom }
}

pub fn left(pos: i32) -> (r: Alignment<Horizontal>)
    ensures
        r == (Alignment { align: Horizontal::Left, pos }),
{
    Alignment { pos, align: Horizontal::Left }
}

pub fn center(pos: i32) -> (r: Alignment<Horizontal>)
    ensures
        r == (Alignment { align: Horizontal::Center, pos }),
{
    Alignment { pos, align: Horizontal::Center }
}

pub fn right(pos: i32) -> (r: Alignment<Horizontal>)
    ensures
        r == (Alignment { align: Horizontal::Right, pos }),
{
    Alignment { pos, align: Horizontal::Right }
}

} // verus!
