//! A tile-based scrolling world: a tile map larger than the viewport, a
//! player-controlled dot that moves across it and is stopped by wall tiles,
//! and a camera that follows the dot.
//!
//! Everything here is pure computation on plain values. Reading the map
//! text, polling input and drawing are left to the caller, which hands in
//! bytes and key events and receives positions and draw calls.

pub mod sprite;
pub mod geometry;
pub mod tile;
pub mod map;
pub mod dot;
pub mod frame;

pub use sprite::TileSprite;
pub use sprite::TOTAL_TILE_SPRITES;
pub use geometry::Rect;
pub use geometry::check_collision;
pub use tile::{Tile, DrawCall, get_clip, touches_wall, visible_tiles, render_quad};
pub use tile::{TILE_WIDTH, TILE_HEIGHT, TOTAL_TILES, LEVEL_WIDTH, LEVEL_HEIGHT, SCREEN_WIDTH, SCREEN_HEIGHT};
pub use map::{MapError, parse_tile_ids, build_tile_set, load_tile_set, MAX_MAP_TILES};
pub use dot::{Dot, Key, KeyEvent, DOT_WIDTH, DOT_HEIGHT, DOT_VEL};
pub use frame::{Frame, advance};
