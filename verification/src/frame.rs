//! One frame of the world: the dot moves, the camera follows, and what
//! the camera sees is listed for drawing.

use vstd::prelude::*;
use crate::dot::{Dot, camera_axis, step_x, step_y, DOT_HEIGHT, DOT_WIDTH};
use crate::geometry::Rect;
use crate::tile::{
    DrawCall,
    Tile,
    draw_list,
    visible_tiles,
    LEVEL_HEIGHT,
    LEVEL_WIDTH,
    SCREEN_HEIGHT,
    SCREEN_WIDTH,
};

verus! {

/// What one frame hands to the renderer: the tiles in view, in map order,
/// and where the dot is drawn, all relative to the camera.
#[derive(Debug)]
pub struct Frame {
    pub tiles: Vec<DrawCall>,
    pub dot_x: i64,
    pub dot_y: i64,
}

/// Where the dot's box stands after one frame among `tiles`.
pub open spec fn moved(dot: Dot, tiles: Seq<Tile>) -> Rect {
    step_y(step_x(dot.bounds, dot.vel_x as int, tiles), dot.vel_y as int, tiles)
}

/// Where a camera of size `w` by `h` stands when it follows a box at `at`.
pub open spec fn following(at: Rect, w: u32, h: u32) -> Rect {
    Rect {
        x: camera_axis(at.x as int, DOT_WIDTH as int, SCREEN_WIDTH as int, LEVEL_WIDTH as int) as i32,
        y: camera_axis(
            at.y as int,
            DOT_HEIGHT as int,
            SCREEN_HEIGHT as int,
            LEVEL_HEIGHT as int,
        ) as i32,
        w,
        h,
    }
}

/// Runs one frame: moves the dot by its velocity, points the camera at
/// where the dot came to stand, and lists what is drawn. Key events of
/// the frame are taken into the dot before this.
pub fn advance(dot: &mut Dot, tiles: &[Tile], camera: &mut Rect) -> (frame: Frame)
    ensures
        final(dot).bounds == moved(*old(dot), tiles@),
        final(dot).vel_x == old(dot).vel_x,
        final(dot).vel_y == old(dot).vel_y,
        *final(camera) == following(final(dot).bounds, old(camera).w, old(camera).h),
        frame.tiles@ == draw_list(tiles@, *final(camera)),
        frame.dot_x == final(dot).bounds.x - final(camera).x,
        frame.dot_y == final(dot).bounds.y - final(camera).y,
{
    dot.move_dot(tiles);
    dot.set_camera(camera);
    let calls = visible_tiles(tiles, camera);
    let at = dot.screen_position(camera);
    Frame { tiles: calls, dot_x: at.0, dot_y: at.1 }
}

} // verus!
