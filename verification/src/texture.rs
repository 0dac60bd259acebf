//! Textures and placed images.  A texture only needs to report its
//! dimensions; pairing it with an anchored position yields an `Image`
//! that can be drawn at a destination rectangle.

use crate::geom::Vec2u;
use crate::renderer::destination::{Destination, Position};
use crate::renderer::{options, Draw, Options, Renderer, Show};
use crate::Error;
use vstd::prelude::*;

verus! {

/// A drawable surface with known dimensions.
pub trait Texture: Sized {
    fn dims(&self) -> Vec2u;

    /// Places the texture at an anchored position, with its own size.
    fn at(self, position: Position) -> (r: Image<Self>) {
        let dst = position.dims(self.dims());
        Image { texture: self, dst }
    }
}

/// A texture together with the destination rectangle it is drawn to.
pub struct Image<T> {
    pub texture: T,
    pub dst: Destination,
}

impl<T> Image<T> {
    /// Multiplies the destination dimensions, keeping the anchor.
    pub fn scale(self, scale: u32) -> (r: Image<T>)
        requires
            self.dst.dims.x * scale <= u32::MAX,
            self.dst.dims.y * scale <= u32::MAX,
        ensures
            r.dst.pos == self.dst.pos,
            r.dst.dims == (Vec2u {
                x: (self.dst.dims.x * scale) as u32,
                y: (self.dst.dims.y * scale) as u32,
            }),
            r.texture == self.texture,
    {
        let dst = self.dst.scale(scale);
        Image { texture: self.texture, dst }
    }
}

impl<R: Renderer, T: Draw<R>> Show<R> for Image<T> {
    /// Draws the texture at this image's destination.
    fn show(&self, renderer: &mut R) -> Result<(), Error> {
        renderer.draw(&self.texture, options::at(self.dst))
    }
}

impl<R: Renderer, T: Draw<R>> Draw<R> for Image<T> {
    /// Draws the texture with the given options, placed at this image's
    /// destination.
    fn draw(&self, options: Options, renderer: &mut R) -> Result<(), Error> {
        renderer.draw(&self.texture, options.at(self.dst))
    }
}

} // verus!
