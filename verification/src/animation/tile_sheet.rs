//! A tile sheet cuts one texture into a grid of equally sized tiles and
//! hands out the source rectangle of any tile by its index, counting
//! row-major from the top-left corner.

use crate::geom::{Vec2u, Vec4u};
use crate::renderer::{options, Draw, Options, Renderer, Show};
use crate::texture::Texture;
use crate::Error;
use vstd::arithmetic::div_mod::{lemma_fundamental_div_mod, lemma_mod_bound};
use vstd::prelude::*;

verus! {

#[derive(Debug)]
pub struct TileSheet<T> {
    texture: T,
    tiles: Vec2u,
    dimensions: Vec2u,
}

/// A borrowed texture together with the source rectangle of one tile.
#[derive(Debug)]
pub struct Tile<'a, T> {
    texture: &'a T,
    src: Vec4u,
}

impl<'a, T> Tile<'a, T> {
    pub closed spec fn spec_src(self) -> Vec4u {
        self.src
    }

    pub closed spec fn spec_texture(self) -> &'a T {
        self.texture
    }

    pub fn new(texture: &'a T, src: Vec4u) -> (r: Tile<'a, T>)
        ensures
            r.spec_src() == src,
            r.spec_texture() == texture,
    {
        Tile { texture, src }
    }

    /// The source rectangle of this tile inside its texture.
    pub fn rect(&self) -> (r: Vec4u)
        ensures
            r == self.spec_src(),
    {
        self.src
    }

    /// The texture the tile is cut from.
    pub fn texture(&self) -> (r: &'a T)
        ensures
            r == self.spec_texture(),
    {
        self.texture
    }
}

impl<T> TileSheet<T> {
    /// The grid: how many tiles across and down.
    pub closed spec fn spec_tiles(&self) -> Vec2u {
        self.tiles
    }

    /// The dimensions of a single tile.
    pub closed spec fn spec_dims(&self) -> Vec2u {
        self.dimensions
    }

    /// The grid is non-empty and every tile position stays within `u32`.
    #[verifier::type_invariant]
    closed spec fn inv(self) -> bool {
        &&& self.tiles.x > 0
        &&& self.tiles.y > 0
        &&& self.tiles.x * self.dimensions.x <= u32::MAX
        &&& self.tiles.y * self.dimensions.y <= u32::MAX
    }

    /// The source rectangle of the tile at `index`, counted row-major.
    pub open spec fn spec_src_of(&self, index: u32) -> Vec4u {
        Vec4u {
            x: ((index as int % self.spec_tiles().x as int) * self.spec_dims().x) as u32,
            y: ((index as int / self.spec_tiles().x as int) * self.spec_dims().y) as u32,
            z: self.spec_dims().x,
            w: self.spec_dims().y,
        }
    }

    /// The tile with the given index.
    pub fn tile(&self, index: u32) -> (r: Tile<'_, T>)
        requires
            index < self.spec_tiles().x * self.spec_tiles().y,
        ensures
            r.spec_src() == self.spec_src_of(index),
    {
        proof {
            use_type_invariant(self);
            lemma_fundamental_div_mod(index as int, self.tiles.x as int);
            lemma_mod_bound(index as int, self.tiles.x as int);
            assert((index as int / self.tiles.x as int) < self.tiles.y) by (nonlinear_arith)
                requires
                    index as int == (index as int / self.tiles.x as int) * self.tiles.x + (
                    index as int % self.tiles.x as int),
                    0 <= index as int % self.tiles.x as int,
                    index < self.tiles.x * self.tiles.y,
                    self.tiles.x > 0,
                    self.tiles.y > 0,
            ;
            assert((index as int % self.tiles.x as int) * self.dimensions.x <= u32::MAX && (
            index as int / self.tiles.x as int) * self.dimensions.y <= u32::MAX)
                by (nonlinear_arith)
                requires
                    0 <= index as int % (self.tiles.x as int),
                    index as int % (self.tiles.x as int) < self.tiles.x,
                    0 <= index as int / (self.tiles.x as int),
                    index as int / (self.tiles.x as int) < self.tiles.y,
                    self.tiles.x * self.dimensions.x <= u32::MAX,
                    self.tiles.y * self.dimensions.y <= u32::MAX,
            ;
        }
        let tile_x: u32 = index % self.tiles.x;
        let tile_y: u32 = index / self.tiles.x;
        let src = Vec4u {
            x: tile_x * self.dimensions.x,
            y: tile_y * self.dimensions.y,
            z: self.dimensions.x,
            w: self.dimensions.y,
        };
        Tile { texture: &self.texture, src }
    }
}

impl<'a, R: Renderer, T: Draw<R>> Show<R> for Tile<'a, T> {
    /// Draws the tile's texture clipped to the tile's source rectangle.
    fn show(&self, renderer: &mut R) -> Result<(), Error> {
        renderer.draw(self.texture, options::from(self.src))
    }
}

impl<'a, R: Renderer, T: Draw<R>> Draw<R> for Tile<'a, T> {
    /// Draws the tile's texture with the given options, clipped to the
    /// tile's source rectangle.
    fn draw(&self, options: Options, renderer: &mut R) -> Result<(), Error> {
        renderer.draw(self.texture, options.from(self.src))
    }
}

impl<T: Texture> TileSheet<T> {
    /// Cuts the texture into a `tiles.x` by `tiles.y` grid; each tile gets
    /// an equal share of the texture's dimensions.
    pub fn new(tiles: Vec2u, texture: T) -> (r: TileSheet<T>)
        requires
            tiles.x > 0,
            tiles.y > 0,
        ensures
            r.spec_tiles() == tiles,
    {
        let text_dims = texture.dims();
        let dimensions = Vec2u { x: text_dims.x / tiles.x, y: text_dims.y / tiles.y };
        proof {
            assert(tiles.x * (text_dims.x as int / tiles.x as int) <= u32::MAX && tiles.y * (
            text_dims.y as int / tiles.y as int) <= u32::MAX) by (nonlinear_arith)
                requires
                    tiles.x > 0,
                    tiles.y > 0,
                    text_dims.x <= u32::MAX,
                    text_dims.y <= u32::MAX,
            ;
        }
        TileSheet { dimensions, texture, tiles }
    }
}

} // verus!
