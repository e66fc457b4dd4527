//! Tiles, the table of their images, the wall query and the list of what
//! is visible through a camera.

use vstd::prelude::*;
use crate::geometry::{Rect, intersects, check_collision};
use crate::sprite::TileSprite;

verus! {

/// The size of the viewport.
pub const SCREEN_WIDTH: u32 = 640;

pub const SCREEN_HEIGHT: u32 = 480;

/// The size of the level.
pub const LEVEL_WIDTH: u32 = 1280;

pub const LEVEL_HEIGHT: u32 = 960;

/// The size of a tile.
pub const TILE_WIDTH: u32 = 80;

pub const TILE_HEIGHT: u32 = 80;

/// How many tiles cover the level.
pub const TOTAL_TILES: u32 = 192;

/// One tile of the map: where it lies and what kind it is.
#[derive(PartialEq, Eq, Structural, Copy, Clone, Debug)]
pub struct Tile {
    pub bounds: Rect,
    pub sprite_type: TileSprite,
}

/// One instruction for the renderer: draw the region `clip` of the sprite
/// sheet with its top-left corner at `(x, y)` on the screen.
#[derive(PartialEq, Eq, Structural, Copy, Clone, Debug)]
pub struct DrawCall {
    pub x: i64,
    pub y: i64,
    pub clip: Rect,
}

/// The region of the sprite sheet that shows a kind of tile. The sheet is
/// laid out by looks, not by number.
pub open spec fn clip_of(sprite: TileSprite) -> Rect {
    match sprite {
        TileSprite::Red => Rect { x: 0, y: 0, w: 80, h: 80 },
        TileSprite::Green => Rect { x: 0, y: 80, w: 80, h: 80 },
        TileSprite::Blue => Rect { x: 0, y: 160, w: 80, h: 80 },
        TileSprite::Center => Rect { x: 160, y: 80, w: 80, h: 80 },
        TileSprite::Top => Rect { x: 160, y: 0, w: 80, h: 80 },
        TileSprite::TopRight => Rect { x: 240, y: 0, w: 80, h: 80 },
        TileSprite::Right => Rect { x: 240, y: 80, w: 80, h: 80 },
        TileSprite::BottomRight => Rect { x: 240, y: 160, w: 80, h: 80 },
        TileSprite::Bottom => Rect { x: 160, y: 160, w: 80, h: 80 },
        TileSprite::BottomLeft => Rect { x: 80, y: 160, w: 80, h: 80 },
        TileSprite::Left => Rect { x: 80, y: 80, w: 80, h: 80 },
        TileSprite::TopLeft => Rect { x: 80, y: 0, w: 80, h: 80 },
    }
}

/// Whether `bounds` overlaps some solid tile of `tiles`.
pub open spec fn hits_wall(bounds: Rect, tiles: Seq<Tile>) -> bool {
    exists|i: int|
        0 <= i < tiles.len() && (#[trigger] tiles[i]).sprite_type.solid() && intersects(
            bounds,
            tiles[i].bounds,
        )
}

impl Tile {
    /// What to draw for this tile as seen through `camera`: nothing when
    /// the tile lies outside it, else the tile's image at the tile's
    /// position relative to the camera.
    pub open spec fn seen_through(self, camera: Rect) -> Option<DrawCall> {
        if intersects(camera, self.bounds) {
            Some(
                DrawCall {
                    x: (self.bounds.x - camera.x) as i64,
                    y: (self.bounds.y - camera.y) as i64,
                    clip: clip_of(self.sprite_type),
                },
            )
        } else {
            None
        }
    }

    /// A tile of the standard size with its top-left corner at `(x, y)`.
    pub fn new(x: u32, y: u32, sprite_type: TileSprite) -> (t: Tile)
        requires
            x <= i32::MAX,
            y <= i32::MAX,
        ensures
            t == (Tile {
                bounds: Rect { x: x as i32, y: y as i32, w: TILE_WIDTH, h: TILE_HEIGHT },
                sprite_type,
            }),
    {
        Tile { bounds: Rect::new(x as i32, y as i32, TILE_WIDTH, TILE_HEIGHT), sprite_type }
    }

    pub fn get_sprite_type(&self) -> (s: TileSprite)
        ensures
            s == self.sprite_type,
    {
        self.sprite_type
    }

    pub fn get_bounds(&self) -> (r: Rect)
        ensures
            r == self.bounds,
    {
        self.bounds
    }

    /// The draw call for this tile as seen through `camera`, if the tile
    /// is in view.
    pub fn draw_call(&self, camera: &Rect) -> (r: Option<DrawCall>)
        ensures
            r == self.seen_through(*camera),
            r is Some <==> intersects(*camera, self.bounds),
            r matches Some(c) ==> c.x == self.bounds.x - camera.x && c.y == self.bounds.y
                - camera.y && c.clip == clip_of(self.sprite_type),
    {
        if check_collision(camera, &self.bounds) {
            Some(
                DrawCall {
                    x: self.bounds.x as i64 - camera.x as i64,
                    y: self.bounds.y as i64 - camera.y as i64,
                    clip: get_clip(self.sprite_type),
                },
            )
        } else {
            None
        }
    }
}

/// The region of the sprite sheet that shows `sprite_type`.
pub fn get_clip(sprite_type: TileSprite) -> (r: Rect)
    ensures
        r == clip_of(sprite_type),
{
    match sprite_type {
        TileSprite::Red => Rect::new(0, 0, TILE_WIDTH, TILE_HEIGHT),
        TileSprite::Green => Rect::new(0, 80, TILE_WIDTH, TILE_HEIGHT),
        TileSprite::Blue => Rect::new(0, 160, TILE_WIDTH, TILE_HEIGHT),
        TileSprite::Center => Rect::new(160, 80, TILE_WIDTH, TILE_HEIGHT),
        TileSprite::Top => Rect::new(160, 0, TILE_WIDTH, TILE_HEIGHT),
        TileSprite::TopRight => Rect::new(240, 0, TILE_WIDTH, TILE_HEIGHT),
        TileSprite::Right => Rect::new(240, 80, TILE_WIDTH, TILE_HEIGHT),
        TileSprite::BottomRight => Rect::new(240, 160, TILE_WIDTH, TILE_HEIGHT),
        TileSprite::Bottom => Rect::new(160, 160, TILE_WIDTH, TILE_HEIGHT),
        TileSprite::BottomLeft => Rect::new(80, 160, TILE_WIDTH, TILE_HEIGHT),
        TileSprite::Left => Rect::new(80, 80, TILE_WIDTH, TILE_HEIGHT),
        TileSprite::TopLeft => Rect::new(80, 0, TILE_WIDTH, TILE_HEIGHT),
    }
}

/// Whether `bounds` overlaps a wall tile of `tiles`.
pub fn touches_wall(bounds: &Rect, tiles: &[Tile]) -> (r: bool)
    ensures
        r == hits_wall(*bounds, tiles@),
{
    let mut i: usize = 0;
    while i < tiles.len()
        invariant
            0 <= i <= tiles.len(),
            forall|j: int|
                0 <= j < i ==> !((#[trigger] tiles@[j]).sprite_type.solid() && intersects(
                    *bounds,
                    tiles@[j].bounds,
                )),
        decreases tiles.len() - i,
    {
        if tiles[i].sprite_type.is_wall() && check_collision(bounds, &tiles[i].bounds) {
            return true;
        }
        i += 1;
    }
    false
}

/// The draw calls for the tiles of `tiles` that `camera` sees, in the
/// order of the tiles.
pub open spec fn draw_list(tiles: Seq<Tile>, camera: Rect) -> Seq<DrawCall>
    decreases tiles.len(),
{
    if tiles.len() == 0 {
        Seq::empty()
    } else {
        let before = draw_list(tiles.drop_last(), camera);
        match tiles.last().seen_through(camera) {
            Some(c) => before.push(c),
            None => before,
        }
    }
}

/// The draw calls of one frame: one for each tile that overlaps `camera`,
/// in map order, each at the tile's position relative to the camera.
pub fn visible_tiles(tiles: &[Tile], camera: &Rect) -> (calls: Vec<DrawCall>)
    ensures
        calls@ == draw_list(tiles@, *camera),
{
    let mut calls: Vec<DrawCall> = Vec::new();
    let mut i: usize = 0;
    while i < tiles.len()
        invariant
            0 <= i <= tiles.len(),
            calls@ == draw_list(tiles@.take(i as int), *camera),
        decreases tiles.len() - i,
    {
        proof {
            assert(tiles@.take(i + 1).drop_last() =~= tiles@.take(i as int));
        }
        match tiles[i].draw_call(camera) {
            Some(c) => {
                calls.push(c);
            },
            None => {},
        }
        i += 1;
    }
    proof {
        assert(tiles@.take(tiles.len() as int) =~= tiles@);
    }
    calls
}

/// Where on the screen a texture is drawn: at `(x, y)`, in the size of
/// `clip` when only a region of the texture is drawn, else in the
/// texture's own size.
pub fn render_quad(x: i32, y: i32, width: u32, height: u32, clip: Option<Rect>) -> (r: Rect)
    ensures
        r == match clip {
            Some(c) => Rect { x, y, w: c.w, h: c.h },
            None => Rect { x, y, w: width, h: height },
        },
{
    let mut quad = Rect::new(x, y, width, height);
    match clip {
        Some(c) => {
            quad.w = c.w;
            quad.h = c.h;
        },
        None => {},
    }
    quad
}

/// A visible tile is drawn once: the list is never longer than the map.
pub proof fn lemma_draw_list_len(tiles: Seq<Tile>, camera: Rect)
    ensures
        draw_list(tiles, camera).len() <= tiles.len(),
    decreases tiles.len(),
{
    if tiles.len() > 0 {
        lemma_draw_list_len(tiles.drop_last(), camera);
    }
}

/// Where no tile is solid, nothing touches a wall.
pub proof fn lemma_no_solid_tile_no_wall(bounds: Rect, tiles: Seq<Tile>)
    requires
        forall|i: int| 0 <= i < tiles.len() ==> !(#[trigger] tiles[i]).sprite_type.solid(),
    ensures
        !hits_wall(bounds, tiles),
{
}

} // verus!
