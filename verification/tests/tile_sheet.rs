use moho::animation::tile_sheet::{Tile, TileSheet};
use moho::geom::{vec2u, vec4u, Vec2u};
use moho::renderer::options::{self, Flip, Options};
use moho::renderer::{ColorRGBA, Destination, Draw, FrameLog, Renderer, Show};
use moho::texture::Texture;
use moho::Error;

#[derive(Debug, PartialEq, Eq, Clone, Copy)]
struct MockTexture {
    dims: Vec2u,
}

impl Texture for MockTexture {
    fn dims(&self) -> Vec2u {
        self.dims
    }
}

#[derive(Default)]
struct MockCanvas {
    draw: Vec<(MockTexture, Options)>,
}

impl FrameLog for MockCanvas {}

impl Renderer for MockCanvas {
    fn set_draw_color(&mut self, _: ColorRGBA) {
        panic!("set_draw_color is not expected")
    }

    fn fill_rects(&mut self, _: &Vec<Destination>) -> Result<(), Error> {
        panic!("fill_rects is not expected")
    }

    fn draw_rects(&mut self, _: &Vec<Destination>) -> Result<(), Error> {
        panic!("draw_rects is not expected")
    }
}

impl Show<MockCanvas> for MockTexture {
    fn show(&self, renderer: &mut MockCanvas) -> Result<(), Error> {
        renderer.draw.push((*self, options::none()));
        Ok(())
    }
}

impl Draw<MockCanvas> for MockTexture {
    fn draw(&self, options: Options, renderer: &mut MockCanvas) -> Result<(), Error> {
        renderer.draw.push((*self, options));
        Ok(())
    }
}

#[test]
fn single_frame() {
    let texture = MockTexture { dims: vec2u(10, 10) };
    let sheet = TileSheet::new(vec2u(1, 1), texture);
    let tile = sheet.tile(0);
    assert_eq!(*tile.texture(), texture);
    assert_eq!(tile.rect(), vec4u(0, 0, 10, 10));
}

#[test]
fn single_row() {
    let texture = MockTexture { dims: vec2u(10, 10) };
    let sheet = TileSheet::new(vec2u(10, 1), texture);
    let tile = sheet.tile(4);
    assert_eq!(*tile.texture(), texture);
    assert_eq!(tile.rect(), vec4u(4, 0, 1, 10));
}

#[test]
fn single_column() {
    let texture = MockTexture { dims: vec2u(10, 10) };
    let sheet = TileSheet::new(vec2u(1, 5), texture);
    let tile = sheet.tile(4);
    assert_eq!(*tile.texture(), texture);
    assert_eq!(tile.rect(), vec4u(0, 8, 10, 2));
}

#[test]
fn mult_frames() {
    let texture = MockTexture { dims: vec2u(20, 10) };
    let sheet = TileSheet::new(vec2u(4, 2), texture);
    let tile = sheet.tile(5);
    assert_eq!(*tile.texture(), texture);
    assert_eq!(tile.rect(), vec4u(5, 5, 5, 5));
}

#[test]
fn draws_tiles() {
    let src = vec4u(5, 5, 5, 5);
    let texture = MockTexture { dims: vec2u(20, 10) };
    let tile = Tile::new(&texture, src);

    let mut renderer = MockCanvas::default();
    let options = options::flip(Flip::Horizontal);
    assert!(renderer.draw(&tile, options.clone()).is_ok());
    assert_eq!(renderer.draw.len(), 1);
    assert_eq!(renderer.draw[0], (texture, options.from(src)));
}

#[test]
fn show_tiles() {
    let src = vec4u(3, 2, 4, 5);
    let texture = MockTexture { dims: vec2u(20, 10) };
    let tile = Tile::new(&texture, src);

    let mut renderer = MockCanvas::default();
    assert!(renderer.show(&tile).is_ok());
    assert_eq!(renderer.draw.len(), 1);
    assert_eq!(renderer.draw[0], (texture, options::from(src)));
}
