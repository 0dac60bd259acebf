//! Fonts, seen through narrow traits.  A backend provides a loader that
//! turns a path and a point size into a font, and a font measures and
//! texturizes text; the library proves nothing about either.

use crate::geom::Vec2u;
use crate::renderer::ColorRGBA;
use crate::Error;
use vstd::prelude::*;

verus! {

/// What identifies a loadable font: where it lives and at what size.
#[derive(PartialEq, Eq, Hash, Clone, Debug)]
pub struct Details {
    pub path: &'static str,
    pub size: u16,
}

/// A loaded font: it can measure text and turn it into a texture.
pub trait Font {
    type Texture;

    fn measure(&self, text: &str) -> Result<Vec2u, Error>;

    fn texturize(&self, text: &str, color: ColorRGBA) -> Result<Self::Texture, Error>;
}

/// A backend that loads fonts from paths.
pub trait FontLoader {
    type Font;

    fn load(&self, path: &str, size: u16) -> Result<Self::Font, Error>;
}

/// Hands font requests to the backend loader it owns.
pub struct FontManager<L> {
    pub loader: L,
}

impl<L: FontLoader> FontManager<L> {
    pub fn init(loader: L) -> (r: FontManager<L>)
        ensures
            r.loader == loader,
    {
        FontManager { loader }
    }

    /// Loads the font at `path` with the given point size.
    pub fn load(&self, path: &str, size: u16) -> Result<L::Font, Error> {
        self.loader.load(path, size)
    }
}

} // verus!
