//! The rendering surface, seen through narrow traits.  Backends implement
//! `Renderer` and `Canvas`; renderable values implement `Show` (draw
//! yourself) or `Draw` (draw yourself with options).  The library proves
//! nothing about what a backend's calls do — each may fail, and the error
//! aborts the frame — but a backend keeps a ghost log of its frame
//! boundaries (clears and presents), and scenes promise not to touch
//! them, so a frame driver can promise its clear-draw-present sequence.

pub mod align;
pub mod destination;
pub mod options;

pub use self::destination::{Destination, Position};
pub use self::options::Options;

use crate::Error;
use vstd::prelude::*;

verus! {

/// A color with red, green, blue and alpha channels.
#[derive(Clone, Copy, Debug, PartialEq, Eq, Structural)]
pub struct ColorRGBA(pub u8, pub u8, pub u8, pub u8);

/// A frame-boundary operation of a canvas, as its ghost log records it.
pub enum CanvasOp {
    Clear,
    Present,
}

/// The ghost log of a drawing surface's frame boundaries.  Every
/// renderer keeps one; scenes promise to leave it alone, and a canvas's
/// `clear` and `present` extend it, so a frame driver can promise its
/// clear-draw-present sequence.
pub trait FrameLog {
    /// The frame boundaries crossed so far: every clear and every
    /// present, in order.  The default satisfies no canvas contract; a
    /// canvas backend overrides it with its own account.
    open spec fn ops(&self) -> Seq<CanvasOp> {
        Seq::empty()
    }
}

/// A drawing backend: primitive fills and outlines, plus entry points
/// that hand the brush to a `Draw` or `Show` value.  Everything here may
/// draw; nothing here clears or presents, and the ghost log `ops` says
/// so.
pub trait Renderer: FrameLog + Sized {
    fn set_draw_color(&mut self, color: ColorRGBA)
        ensures
            final(self).ops() == old(self).ops(),
    ;

    fn fill_rects(&mut self, rects: &Vec<Destination>) -> (r: Result<(), Error>)
        ensures
            final(self).ops() == old(self).ops(),
    ;

    fn draw_rects(&mut self, rects: &Vec<Destination>) -> (r: Result<(), Error>)
        ensures
            final(self).ops() == old(self).ops(),
    ;

    /// Draws an asset with options by handing it the renderer.
    fn draw<D: Draw<Self>>(&mut self, asset: &D, options: Options) -> (r: Result<(), Error>)
        ensures
            final(self).ops() == old(self).ops(),
    {
        asset.draw(options, self)
    }

    /// Shows a scene by handing it the renderer.
    fn show<S: Show<Self>>(&mut self, scene: &S) -> (r: Result<(), Error>)
        ensures
            final(self).ops() == old(self).ops(),
    {
        scene.show(self)
    }
}

/// A value that can issue its own draw calls against a renderer.  A
/// scene draws; it does not clear or present.
pub trait Show<R: FrameLog> {
    fn show(&self, renderer: &mut R) -> (r: Result<(), Error>)
        ensures
            final(renderer).ops() == old(renderer).ops(),
    ;
}

/// A value that can be drawn with placement options.
pub trait Draw<R: FrameLog>: Show<R> {
    fn draw(&self, options: Options, renderer: &mut R) -> (r: Result<(), Error>)
        ensures
            final(renderer).ops() == old(renderer).ops(),
    ;
}

impl<R: FrameLog, T: Show<R>> Show<R> for std::rc::Rc<T> {
    /// Shows the shared value.
    fn show(&self, renderer: &mut R) -> Result<(), Error> {
        (&**self).show(renderer)
    }
}

impl<R: FrameLog, T: Draw<R>> Draw<R> for std::rc::Rc<T> {
    /// Draws the shared value with the given options.
    fn draw(&self, options: Options, renderer: &mut R) -> Result<(), Error> {
        (&**self).draw(options, renderer)
    }
}

impl<R: FrameLog, T: Show<R>> Show<R> for Vec<T> {
    /// Shows every element in order; the first failure aborts the rest.
    #[verifier::loop_isolation(false)]
    fn show(&self, renderer: &mut R) -> Result<(), Error> {
        let mut i: usize = 0;
        while i < self.len()
            invariant
                renderer.ops() == old(renderer).ops(),
            decreases self.len() - i,
        {
            match self[i].show(renderer) {
                Err(e) => {
                    return Err(e);
                },
                Ok(_) => {},
            }
            i = i + 1;
        }
        Ok(())
    }
}

/// A presentable surface: clear at the top of a frame, present at its
/// end; the ghost log records both.
pub trait Canvas: Renderer {
    fn clear(&mut self)
        ensures
            final(self).ops() == old(self).ops().push(CanvasOp::Clear),
    ;

    fn present(&mut self)
        ensures
            final(self).ops() == old(self).ops().push(CanvasOp::Present),
    ;
}

} // verus!
