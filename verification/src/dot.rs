//! The dot: how key events change its velocity, how it moves among the
//! tiles, and where the camera that follows it looks.

use vstd::prelude::*;
use crate::geometry::Rect;
use crate::tile::{
    Tile,
    hits_wall,
    touches_wall,
    LEVEL_HEIGHT,
    LEVEL_WIDTH,
    SCREEN_HEIGHT,
    SCREEN_WIDTH,
};

verus! {

/// The size of the dot.
pub const DOT_WIDTH: u32 = 20;

pub const DOT_HEIGHT: u32 = 20;

/// By how much one held key changes the velocity along its axis.
pub const DOT_VEL: i32 = 10;

/// A key of the keyboard: the four directions, and every other key.
#[derive(PartialEq, Eq, Structural, Copy, Clone, Debug)]
pub enum Key {
    Up,
    Down,
    Left,
    Right,
    Other,
}

/// A key going down or coming up. `repeat` marks an event that the
/// keyboard sends again while the key is held.
#[derive(PartialEq, Eq, Structural, Copy, Clone, Debug)]
pub struct KeyEvent {
    pub pressed: bool,
    pub key: Key,
    pub repeat: bool,
}

/// The moving entity: its bounding box and its velocity per frame.
#[derive(PartialEq, Eq, Structural, Copy, Clone, Debug)]
pub struct Dot {
    pub bounds: Rect,
    pub vel_x: i32,
    pub vel_y: i32,
}

/// The change of velocity that pressing `key` asks for.
pub open spec fn key_step(key: Key) -> (int, int) {
    match key {
        Key::Up => (0, -DOT_VEL),
        Key::Down => (0, DOT_VEL as int),
        Key::Left => (-DOT_VEL, 0),
        Key::Right => (DOT_VEL as int, 0),
        Key::Other => (0, 0),
    }
}

/// The velocity that follows `(vx, vy)` on event `e`: a press adds the
/// key's step, a release takes it away, a repeated event changes nothing.
pub open spec fn velocity_after(vx: int, vy: int, e: KeyEvent) -> (int, int) {
    let step = key_step(e.key);
    if e.repeat {
        (vx, vy)
    } else if e.pressed {
        (vx + step.0, vy + step.1)
    } else {
        (vx - step.0, vy - step.1)
    }
}

/// Whether a box at `r` may stand where it is along x: inside the level
/// and clear of every wall.
pub open spec fn x_free(r: Rect, tiles: Seq<Tile>) -> bool {
    r.x >= 0 && r.x + DOT_WIDTH <= LEVEL_WIDTH && !hits_wall(r, tiles)
}

/// Whether a box at `r` may stand where it is along y.
pub open spec fn y_free(r: Rect, tiles: Seq<Tile>) -> bool {
    r.y >= 0 && r.y + DOT_HEIGHT <= LEVEL_HEIGHT && !hits_wall(r, tiles)
}

/// The box `r` after a step of `vx` along x: moved if the whole step is
/// free, else where it was.
pub open spec fn step_x(r: Rect, vx: int, tiles: Seq<Tile>) -> Rect {
    let nx = r.x + vx;
    if i32::MIN <= nx <= i32::MAX && x_free(Rect { x: nx as i32, ..r }, tiles) {
        Rect { x: nx as i32, ..r }
    } else {
        r
    }
}

/// The box `r` after a step of `vy` along y.
pub open spec fn step_y(r: Rect, vy: int, tiles: Seq<Tile>) -> Rect {
    let ny = r.y + vy;
    if i32::MIN <= ny <= i32::MAX && y_free(Rect { y: ny as i32, ..r }, tiles) {
        Rect { y: ny as i32, ..r }
    } else {
        r
    }
}

/// Where the camera stands along one axis for an entity at `pos` of size
/// `size`: centred on the entity, then kept within a level of length
/// `level` seen through a viewport of length `screen`.
pub open spec fn camera_axis(pos: int, size: int, screen: int, level: int) -> int {
    let centred = (pos + size / 2) - screen / 2;
    let low = if centred < 0 { 0 } else { centred };
    if low > level - screen { level - screen } else { low }
}

impl Dot {
    /// Whether the dot lies inside the level.
    pub open spec fn in_level(self) -> bool {
        &&& 0 <= self.bounds.x
        &&& self.bounds.x + DOT_WIDTH <= LEVEL_WIDTH
        &&& 0 <= self.bounds.y
        &&& self.bounds.y + DOT_HEIGHT <= LEVEL_HEIGHT
    }

    /// Whether the velocity that follows event `e` can be held.
    pub open spec fn accepts(self, e: KeyEvent) -> bool {
        let v = velocity_after(self.vel_x as int, self.vel_y as int, e);
        i32::MIN <= v.0 <= i32::MAX && i32::MIN <= v.1 <= i32::MAX
    }

    /// A dot at rest at the origin.
    pub fn new() -> (d: Dot)
        ensures
            d == (Dot { bounds: Rect { x: 0, y: 0, w: DOT_WIDTH, h: DOT_HEIGHT }, vel_x: 0, vel_y: 0 }),
            d.in_level(),
    {
        Dot { bounds: Rect::new(0, 0, DOT_WIDTH, DOT_HEIGHT), vel_x: 0, vel_y: 0 }
    }

    /// Whether `handle_event` may be called with `e`: whether the
    /// velocity that follows fits.
    pub fn can_handle(&self, e: &KeyEvent) -> (r: bool)
        ensures
            r == self.accepts(*e),
    {
        if e.repeat {
            return true;
        }
        let toward_more: bool = match e.key {
            Key::Down | Key::Right => e.pressed,
            Key::Up | Key::Left => !e.pressed,
            Key::Other => {
                return true;
            },
        };
        let v: i32 = match e.key {
            Key::Up | Key::Down => self.vel_y,
            _ => self.vel_x,
        };
        if toward_more {
            v <= i32::MAX - DOT_VEL
        } else {
            v >= i32::MIN + DOT_VEL
        }
    }

    /// Takes a key event into the velocity. Only the first press and the
    /// release of a direction key count.
    pub fn handle_event(&mut self, e: &KeyEvent)
        requires
            old(self).accepts(*e),
        ensures
            (final(self).vel_x as int, final(self).vel_y as int) == velocity_after(
                old(self).vel_x as int,
                old(self).vel_y as int,
                *e,
            ),
            final(self).bounds == old(self).bounds,
    {
        if e.repeat {
            return ;
        }
        if e.pressed {
            match e.key {
                Key::Up => {
                    self.vel_y -= DOT_VEL;
                },
                Key::Down => {
                    self.vel_y += DOT_VEL;
                },
                Key::Left => {
                    self.vel_x -= DOT_VEL;
                },
                Key::Right => {
                    self.vel_x += DOT_VEL;
                },
                Key::Other => {},
            }
        } else {
            match e.key {
                Key::Up => {
                    self.vel_y += DOT_VEL;
                },
                Key::Down => {
                    self.vel_y -= DOT_VEL;
                },
                Key::Left => {
                    self.vel_x += DOT_VEL;
                },
                Key::Right => {
                    self.vel_x -= DOT_VEL;
                },
                Key::Other => {},
            }
        }
    }

    /// Moves the dot by its velocity, one axis after the other. A step
    /// along an axis that would leave the level or touch a wall is not
    /// taken at all; the step along y is judged from where the step
    /// along x ended.
    pub fn move_dot(&mut self, tiles: &[Tile])
        ensures
            final(self).bounds == step_y(
                step_x(old(self).bounds, old(self).vel_x as int, tiles@),
                old(self).vel_y as int,
                tiles@,
            ),
            final(self).vel_x == old(self).vel_x,
            final(self).vel_y == old(self).vel_y,
            final(self).bounds.w == old(self).bounds.w,
            final(self).bounds.h == old(self).bounds.h,
            old(self).in_level() ==> final(self).in_level(),
            !hits_wall(old(self).bounds, tiles@) ==> !hits_wall(final(self).bounds, tiles@),
    {
        let nx: i64 = self.bounds.x as i64 + self.vel_x as i64;
        if 0 <= nx && nx + DOT_WIDTH as i64 <= LEVEL_WIDTH as i64 {
            let moved = Rect { x: nx as i32, y: self.bounds.y, w: self.bounds.w, h: self.bounds.h };
            if !touches_wall(&moved, tiles) {
                self.bounds = moved;
            }
        }
        let ny: i64 = self.bounds.y as i64 + self.vel_y as i64;
        if 0 <= ny && ny + DOT_HEIGHT as i64 <= LEVEL_HEIGHT as i64 {
            let moved = Rect { x: self.bounds.x, y: ny as i32, w: self.bounds.w, h: self.bounds.h };
            if !touches_wall(&moved, tiles) {
                self.bounds = moved;
            }
        }
    }

    /// Points the camera at the dot: centred on the dot's centre, and
    /// kept inside the level. The camera's size is left as it is.
    pub fn set_camera(&self, camera: &mut Rect)
        ensures
            final(camera).x == camera_axis(
                self.bounds.x as int,
                DOT_WIDTH as int,
                SCREEN_WIDTH as int,
                LEVEL_WIDTH as int,
            ),
            final(camera).y == camera_axis(
                self.bounds.y as int,
                DOT_HEIGHT as int,
                SCREEN_HEIGHT as int,
                LEVEL_HEIGHT as int,
            ),
            final(camera).w == old(camera).w,
            final(camera).h == old(camera).h,
            0 <= final(camera).x <= LEVEL_WIDTH - SCREEN_WIDTH,
            0 <= final(camera).y <= LEVEL_HEIGHT - SCREEN_HEIGHT,
    {
        let mut cx: i64 = (self.bounds.x as i64 + (DOT_WIDTH / 2) as i64) - (SCREEN_WIDTH / 2) as i64;
        let mut cy: i64 = (self.bounds.y as i64 + (DOT_HEIGHT / 2) as i64) - (SCREEN_HEIGHT / 2) as i64;
        if cx < 0 {
            cx = 0;
        }
        if cy < 0 {
            cy = 0;
        }
        if cx > (LEVEL_WIDTH - SCREEN_WIDTH) as i64 {
            cx = (LEVEL_WIDTH - SCREEN_WIDTH) as i64;
        }
        if cy > (LEVEL_HEIGHT - SCREEN_HEIGHT) as i64 {
            cy = (LEVEL_HEIGHT - SCREEN_HEIGHT) as i64;
        }
        camera.x = cx as i32;
        camera.y = cy as i32;
    }

    /// Where on the screen the dot is drawn: its position relative to the
    /// camera.
    pub fn screen_position(&self, camera: &Rect) -> (p: (i64, i64))
        ensures
            p.0 == self.bounds.x - camera.x,
            p.1 == self.bounds.y - camera.y,
    {
        (self.bounds.x as i64 - camera.x as i64, self.bounds.y as i64 - camera.y as i64)
    }
}

/// Releasing a key undoes what pressing it did to the velocity, and
/// pressing undoes releasing.
pub proof fn lemma_release_undoes_press(vx: int, vy: int, key: Key)
    ensures
        ({
            let down = KeyEvent { pressed: true, key, repeat: false };
            let up = KeyEvent { pressed: false, key, repeat: false };
            let pressed = velocity_after(vx, vy, down);
            let released = velocity_after(vx, vy, up);
            &&& velocity_after(pressed.0, pressed.1, up) == (vx, vy)
            &&& velocity_after(released.0, released.1, down) == (vx, vy)
        }),
{
}

/// A repeated event leaves the velocity as it is, whatever the key, so a
/// key held between its press and its release adds nothing.
pub proof fn lemma_repeat_changes_nothing(vx: int, vy: int, key: Key, pressed: bool)
    ensures
        velocity_after(vx, vy, KeyEvent { pressed, key, repeat: true }) == (vx, vy),
        ({
            let down = KeyEvent { pressed: true, key, repeat: false };
            let held = KeyEvent { pressed: true, key, repeat: true };
            let up = KeyEvent { pressed: false, key, repeat: false };
            let a = velocity_after(vx, vy, down);
            let b = velocity_after(a.0, a.1, held);
            velocity_after(b.0, b.1, up) == (vx, vy)
        }),
{
}

/// A key moves the velocity along its own axis only: Left and Right
/// leave the vertical part alone, Up and Down the horizontal part.
pub proof fn lemma_key_axis(vx: int, vy: int, e: KeyEvent)
    ensures
        (e.key == Key::Left || e.key == Key::Right || e.key == Key::Other) ==> velocity_after(
            vx,
            vy,
            e,
        ).1 == vy,
        (e.key == Key::Up || e.key == Key::Down || e.key == Key::Other) ==> velocity_after(
            vx,
            vy,
            e,
        ).0 == vx,
{
}

/// The camera always lies inside the level, and stands centred on the
/// entity wherever that leaves it inside.
pub proof fn lemma_camera_axis_range(pos: int, size: int, screen: int, level: int)
    requires
        0 <= screen <= level,
    ensures
        0 <= camera_axis(pos, size, screen, level) <= level - screen,
        0 <= (pos + size / 2) - screen / 2 <= level - screen ==> camera_axis(
            pos,
            size,
            screen,
            level,
        ) == (pos + size / 2) - screen / 2,
{
}

/// A step along an axis is taken whole or not at all.
pub proof fn lemma_step_whole_or_none(r: Rect, v: int, tiles: Seq<Tile>)
    ensures
        step_x(r, v, tiles).x == r.x + v || step_x(r, v, tiles) == r,
        step_x(r, v, tiles).y == r.y,
        step_y(r, v, tiles).y == r.y + v || step_y(r, v, tiles) == r,
        step_y(r, v, tiles).x == r.x,
{
}

} // verus!
