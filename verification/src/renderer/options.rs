//! Options for one draw call: an optional destination placement, an
//! optional source clip inside the texture, and an optional flip.

use crate::geom::Vec4u;
use crate::renderer::destination::Destination;
use vstd::prelude::*;

verus! {

#[derive(Debug, Clone, Copy, PartialEq, Eq, Structural)]
pub enum Flip {
    Horizontal,
    Vertical,
    Both,
}

#[derive(Debug, Clone, PartialEq)]
pub struct Options {
    pub dst: Option<Destination>,
    pub src: Option<Vec4u>,
    pub flip: Option<Flip>,
}

impl Default for Options {
    /// No placement, no clip, no flip.
    fn default() -> (r: Options)
        ensures
            r.dst is None,
            r.src is None,
            r.flip is None,
    {
        Options { dst: None, src: None, flip: None }
    }
}

impl Options {
    /// Sets the destination placement.
    pub fn at(self, dst: Destination) -> (r: Options)
        ensures
            r.dst == Some(dst),
            r.src == self.src,
            r.flip == self.flip,
    {
        Options { dst: Some(dst), src: self.src, flip: self.flip }
    }

    /// Sets the source clip.
    pub fn from(self, src: Vec4u) -> (r: Options)
        ensures
            r.src == Some(src),
            r.dst == self.dst,
            r.flip == self.flip,
    {
        Options { src: Some(src), dst: self.dst, flip: self.flip }
    }

    /// Sets the flip.
    pub fn flip(self, flip: Flip) -> (r: Options)
        ensures
            r.flip == Some(flip),
            r.dst == self.dst,
            r.src == self.src,
    {
        Options { flip: Some(flip), dst: self.dst, src: self.src }
    }
}

pub fn none() -> (r: Options)
    ensures
        r.dst is None,
        r.src is None,
        r.flip is None,
{
    Options::default()
}

pub fn at(dst: Destination) -> (r: Options)
    ensures
        r.dst == Some(dst),
        r.src is None,
        r.flip is None,
{
    Options::default().at(dst)
}

pub fn from(src: Vec4u) -> (r: Options)
    ensures
        r.src == Some(src),
        r.dst is None,
        r.flip is None,
{
    Options::default().from(src)
}

pub fn flip(value: Flip) -> (r: Options)
    ensures
        r.flip == Some(value),
        r.dst is None,
        r.src is None,
{
    Options::default().flip(value)
}

} // verus!
