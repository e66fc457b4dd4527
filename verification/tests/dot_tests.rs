use tiling::{Dot, Key, KeyEvent, Rect, Tile, TileSprite, DOT_HEIGHT, DOT_VEL, DOT_WIDTH};

fn dot_at(x: i32, y: i32, vel_x: i32, vel_y: i32) -> Dot {
    Dot { bounds: Rect::new(x, y, DOT_WIDTH, DOT_HEIGHT), vel_x, vel_y }
}

fn down(key: Key) -> KeyEvent {
    KeyEvent { pressed: true, key, repeat: false }
}

fn up(key: Key) -> KeyEvent {
    KeyEvent { pressed: false, key, repeat: false }
}

fn held(key: Key) -> KeyEvent {
    KeyEvent { pressed: true, key, repeat: true }
}

fn feed(dot: &mut Dot, e: KeyEvent) {
    assert!(dot.can_handle(&e));
    dot.handle_event(&e);
}

#[test]
fn new_dot_rests_at_the_origin() {
    let d = Dot::new();
    assert_eq!(d.bounds, Rect::new(0, 0, 20, 20));
    assert_eq!((d.vel_x, d.vel_y), (0, 0));
}

#[test]
fn each_key_press_steps_its_axis() {
    let mut d = Dot::new();
    feed(&mut d, down(Key::Right));
    assert_eq!((d.vel_x, d.vel_y), (10, 0));
    feed(&mut d, down(Key::Down));
    assert_eq!((d.vel_x, d.vel_y), (10, 10));
    feed(&mut d, down(Key::Left));
    assert_eq!((d.vel_x, d.vel_y), (0, 10));
    feed(&mut d, down(Key::Up));
    assert_eq!((d.vel_x, d.vel_y), (0, 0));
    feed(&mut d, down(Key::Up));
    assert_eq!((d.vel_x, d.vel_y), (0, -DOT_VEL));
    feed(&mut d, down(Key::Left));
    assert_eq!((d.vel_x, d.vel_y), (-10, -10));
}

#[test]
fn release_undoes_press() {
    for key in [Key::Up, Key::Down, Key::Left, Key::Right, Key::Other] {
        let mut d = dot_at(0, 0, 3, -7);
        feed(&mut d, down(key));
        feed(&mut d, up(key));
        assert_eq!((d.vel_x, d.vel_y), (3, -7));
    }
}

#[test]
fn right_down_then_up_with_repeats_between() {
    let mut d = dot_at(0, 0, 0, 30);
    feed(&mut d, down(Key::Right));
    assert_eq!((d.vel_x, d.vel_y), (10, 30));
    for _ in 0..5 {
        feed(&mut d, held(Key::Right));
        assert_eq!((d.vel_x, d.vel_y), (10, 30));
    }
    feed(&mut d, up(Key::Right));
    assert_eq!((d.vel_x, d.vel_y), (0, 30));
}

#[test]
fn repeated_release_is_ignored() {
    let mut d = dot_at(0, 0, 10, 0);
    feed(&mut d, KeyEvent { pressed: false, key: Key::Right, repeat: true });
    assert_eq!((d.vel_x, d.vel_y), (10, 0));
}

#[test]
fn other_keys_are_ignored() {
    let mut d = dot_at(5, 5, 10, -10);
    feed(&mut d, down(Key::Other));
    feed(&mut d, up(Key::Other));
    feed(&mut d, down(Key::Other));
    assert_eq!(d, dot_at(5, 5, 10, -10));
}

#[test]
fn events_do_not_move_the_dot() {
    let mut d = dot_at(40, 50, 0, 0);
    feed(&mut d, down(Key::Right));
    assert_eq!(d.bounds, Rect::new(40, 50, 20, 20));
}

#[test]
fn can_handle_marks_the_limits_of_velocity() {
    let d = dot_at(0, 0, i32::MAX - 9, i32::MIN + 9);
    assert!(!d.can_handle(&down(Key::Right)));
    assert!(!d.can_handle(&up(Key::Left)));
    assert!(d.can_handle(&down(Key::Left)));
    assert!(d.can_handle(&up(Key::Right)));
    assert!(!d.can_handle(&down(Key::Up)));
    assert!(!d.can_handle(&up(Key::Down)));
    assert!(d.can_handle(&down(Key::Down)));
    assert!(d.can_handle(&up(Key::Up)));
    assert!(d.can_handle(&held(Key::Right)));
    assert!(d.can_handle(&down(Key::Other)));
    let e = dot_at(0, 0, i32::MAX - 10, i32::MIN + 10);
    assert!(e.can_handle(&down(Key::Right)));
    assert!(e.can_handle(&down(Key::Up)));
}

#[test]
fn wall_ahead_rolls_the_x_step_back() {
    let mut d = dot_at(100, 100, 10, 0);
    let tiles = vec![Tile::new(110, 100, TileSprite::Center)];
    d.move_dot(&tiles);
    assert_eq!(d.bounds.x, 100);
    assert_eq!(d.bounds.y, 100);
    assert_eq!((d.vel_x, d.vel_y), (10, 0));
}

#[test]
fn free_move_takes_both_axes() {
    let mut d = dot_at(100, 100, 10, 5);
    let tiles: Vec<Tile> = Vec::new();
    d.move_dot(&tiles);
    assert_eq!((d.bounds.x, d.bounds.y), (110, 105));
    assert_eq!((d.bounds.w, d.bounds.h), (20, 20));
}

#[test]
fn background_tile_does_not_block() {
    let mut d = dot_at(100, 100, 10, 5);
    let tiles = vec![Tile::new(110, 100, TileSprite::Blue)];
    d.move_dot(&tiles);
    assert_eq!((d.bounds.x, d.bounds.y), (110, 105));
}

#[test]
fn dot_slides_along_a_wall() {
    // wall to the right blocks x, y still moves
    let mut d = dot_at(60, 100, 10, 10);
    let tiles = vec![Tile::new(80, 80, TileSprite::Left), Tile::new(80, 160, TileSprite::Left)];
    d.move_dot(&tiles);
    assert_eq!((d.bounds.x, d.bounds.y), (60, 110));
}

#[test]
fn y_step_is_judged_from_the_resolved_x() {
    // from x = 50 the step down would be free; from x = 60 it meets the wall
    let mut d = dot_at(50, 50, 10, 10);
    let tiles = vec![Tile::new(75, 75, TileSprite::Center)];
    d.move_dot(&tiles);
    assert_eq!((d.bounds.x, d.bounds.y), (60, 50));
    let mut e = dot_at(40, 50, 10, 10);
    e.move_dot(&tiles);
    assert_eq!((e.bounds.x, e.bounds.y), (50, 60));
    let mut f = dot_at(20, 50, 10, 10);
    f.move_dot(&tiles);
    assert_eq!((f.bounds.x, f.bounds.y), (30, 60));
}

#[test]
fn dot_may_stand_flush_against_a_wall() {
    let mut d = dot_at(50, 0, 10, 0);
    let tiles = vec![Tile::new(80, 0, TileSprite::Left)];
    d.move_dot(&tiles);
    assert_eq!(d.bounds.x, 60);
    d.move_dot(&tiles);
    assert_eq!(d.bounds.x, 60);
}

#[test]
fn level_edges_roll_the_step_back_whole() {
    let tiles: Vec<Tile> = Vec::new();
    let mut d = dot_at(5, 5, -10, -10);
    d.move_dot(&tiles);
    assert_eq!((d.bounds.x, d.bounds.y), (5, 5));
    let mut e = dot_at(1255, 935, 10, 10);
    e.move_dot(&tiles);
    assert_eq!((e.bounds.x, e.bounds.y), (1255, 935));
    let mut f = dot_at(1250, 930, 10, 10);
    f.move_dot(&tiles);
    assert_eq!((f.bounds.x, f.bounds.y), (1260, 940));
    let mut g = dot_at(10, 10, -10, -10);
    g.move_dot(&tiles);
    assert_eq!((g.bounds.x, g.bounds.y), (0, 0));
}

#[test]
fn extreme_velocity_does_not_overflow() {
    let tiles: Vec<Tile> = Vec::new();
    let mut d = dot_at(100, 100, i32::MAX, i32::MIN);
    d.move_dot(&tiles);
    assert_eq!((d.bounds.x, d.bounds.y), (100, 100));
}

#[test]
fn resting_dot_stays() {
    let tiles = vec![Tile::new(0, 0, TileSprite::Red)];
    let mut d = Dot::new();
    d.move_dot(&tiles);
    assert_eq!(d, Dot::new());
}

#[test]
fn keys_then_frames_walk_the_dot() {
    let tiles: Vec<Tile> = Vec::new();
    let mut d = Dot::new();
    feed(&mut d, down(Key::Right));
    feed(&mut d, down(Key::Down));
    for _ in 0..10 {
        d.move_dot(&tiles);
    }
    assert_eq!((d.bounds.x, d.bounds.y), (100, 100));
    feed(&mut d, up(Key::Down));
    let wall = vec![Tile::new(110, 100, TileSprite::Center)];
    d.move_dot(&wall);
    assert_eq!((d.bounds.x, d.bounds.y), (100, 100));
}

#[test]
fn camera_centres_on_the_dot() {
    let d = dot_at(640, 480, 0, 0);
    let mut camera = Rect::new(0, 0, 640, 480);
    d.set_camera(&mut camera);
    assert_eq!(camera, Rect::new(330, 250, 640, 480));
}

#[test]
fn camera_is_clamped_at_the_origin() {
    let d = dot_at(0, 0, 0, 0);
    let mut camera = Rect::new(77, 88, 640, 480);
    d.set_camera(&mut camera);
    assert_eq!(camera, Rect::new(0, 0, 640, 480));
}

#[test]
fn camera_is_clamped_at_the_far_corner() {
    let d = dot_at(1260, 940, 0, 0);
    let mut camera = Rect::new(0, 0, 640, 480);
    d.set_camera(&mut camera);
    assert_eq!(camera, Rect::new(640, 480, 640, 480));
}

#[test]
fn camera_clamps_each_axis_alone() {
    let d = dot_at(100, 600, 0, 0);
    let mut camera = Rect::new(0, 0, 640, 480);
    d.set_camera(&mut camera);
    assert_eq!((camera.x, camera.y), (0, 370));
    let e = dot_at(310, 230, 0, 0);
    e.set_camera(&mut camera);
    assert_eq!((camera.x, camera.y), (0, 0));
    let f = dot_at(311, 231, 0, 0);
    f.set_camera(&mut camera);
    assert_eq!((camera.x, camera.y), (1, 1));
    let g = dot_at(950, 710, 0, 0);
    g.set_camera(&mut camera);
    assert_eq!((camera.x, camera.y), (640, 480));
}

#[test]
fn dot_is_drawn_relative_to_the_camera() {
    let d = dot_at(640, 480, 0, 0);
    let mut camera = Rect::new(0, 0, 640, 480);
    d.set_camera(&mut camera);
    assert_eq!(d.screen_position(&camera), (310, 230));
    let e = Dot::new();
    e.set_camera(&mut camera);
    assert_eq!(e.screen_position(&camera), (0, 0));
}

#[test]
fn frame_moves_then_follows_then_lists() {
    let tiles = tiling::load_tile_set(b"0 1 2 3").unwrap();
    let mut d = dot_at(0, 100, 10, 5);
    let mut camera = Rect::new(9, 9, 640, 480);
    let frame = tiling::advance(&mut d, &tiles, &mut camera);
    assert_eq!((d.bounds.x, d.bounds.y), (10, 105));
    assert_eq!((d.vel_x, d.vel_y), (10, 5));
    assert_eq!(camera, Rect::new(0, 0, 640, 480));
    assert_eq!((frame.dot_x, frame.dot_y), (10, 105));
    assert_eq!(frame.tiles.len(), 4);
    assert_eq!(frame.tiles[3], tiling::DrawCall { x: 240, y: 0, clip: Rect::new(160, 80, 80, 80) });
}

#[test]
fn frame_draws_relative_to_a_scrolled_camera() {
    let ids: Vec<u32> = vec![1; 192];
    let tiles = tiling::build_tile_set(&ids).unwrap();
    let mut d = dot_at(630, 475, 10, 5);
    let mut camera = Rect::new(0, 0, 640, 480);
    let frame = tiling::advance(&mut d, &tiles, &mut camera);
    assert_eq!((d.bounds.x, d.bounds.y), (640, 480));
    assert_eq!((camera.x, camera.y), (330, 250));
    assert_eq!((frame.dot_x, frame.dot_y), (310, 230));
    assert_eq!(frame.tiles.len(), 9 * 7);
    assert_eq!((frame.tiles[0].x, frame.tiles[0].y), (-10, -10));
}
