use tiling::{check_collision, render_quad, touches_wall, Rect, Tile, TileSprite};

#[test]
fn rect_new_keeps_its_arguments() {
    let r = Rect::new(-3, 7, 20, 30);
    assert_eq!(r.x, -3);
    assert_eq!(r.y, 7);
    assert_eq!(r.w, 20);
    assert_eq!(r.h, 30);
}

#[test]
fn overlapping_rects_collide() {
    let a = Rect::new(0, 0, 10, 10);
    let b = Rect::new(5, 5, 10, 10);
    assert!(check_collision(&a, &b));
    assert!(check_collision(&b, &a));
}

#[test]
fn one_pixel_overlap_collides() {
    let a = Rect::new(0, 0, 10, 10);
    let b = Rect::new(9, 9, 10, 10);
    assert!(check_collision(&a, &b));
}

#[test]
fn contained_rect_collides() {
    let a = Rect::new(0, 0, 100, 100);
    let b = Rect::new(40, 40, 5, 5);
    assert!(check_collision(&a, &b));
    assert!(check_collision(&b, &a));
}

#[test]
fn shared_vertical_edge_is_no_collision() {
    let a = Rect::new(0, 0, 10, 10);
    let b = Rect::new(10, 0, 10, 10);
    assert!(!check_collision(&a, &b));
    assert!(!check_collision(&b, &a));
}

#[test]
fn shared_horizontal_edge_is_no_collision() {
    let a = Rect::new(0, 0, 10, 10);
    let b = Rect::new(0, 10, 10, 10);
    assert!(!check_collision(&a, &b));
    assert!(!check_collision(&b, &a));
}

#[test]
fn shared_corner_is_no_collision() {
    let a = Rect::new(0, 0, 10, 10);
    let b = Rect::new(10, 10, 10, 10);
    assert!(!check_collision(&a, &b));
}

#[test]
fn distant_rects_do_not_collide() {
    let a = Rect::new(0, 0, 10, 10);
    let b = Rect::new(100, 0, 10, 10);
    let c = Rect::new(0, 100, 10, 10);
    assert!(!check_collision(&a, &b));
    assert!(!check_collision(&a, &c));
}

#[test]
fn extreme_coordinates_do_not_overflow() {
    let a = Rect::new(i32::MAX, i32::MAX, u32::MAX, u32::MAX);
    let b = Rect::new(i32::MIN, i32::MIN, u32::MAX, u32::MAX);
    assert!(!check_collision(&a, &b));
    let c = Rect::new(i32::MAX - 5, i32::MAX - 5, 10, 10);
    assert!(check_collision(&a, &c));
}

#[test]
fn touches_wall_needs_a_wall_tile() {
    let tiles = vec![
        Tile::new(0, 0, TileSprite::Red),
        Tile::new(80, 0, TileSprite::Center),
    ];
    assert!(!touches_wall(&Rect::new(10, 10, 20, 20), &tiles));
    assert!(touches_wall(&Rect::new(70, 10, 20, 20), &tiles));
    assert!(touches_wall(&Rect::new(100, 10, 20, 20), &tiles));
}

#[test]
fn touches_wall_flush_against_wall_is_false() {
    let tiles = vec![Tile::new(80, 0, TileSprite::Left)];
    assert!(!touches_wall(&Rect::new(60, 0, 20, 20), &tiles));
    assert!(touches_wall(&Rect::new(61, 0, 20, 20), &tiles));
    assert!(!touches_wall(&Rect::new(160, 0, 20, 20), &tiles));
    assert!(!touches_wall(&Rect::new(100, 80, 20, 20), &tiles));
}

#[test]
fn touches_wall_on_empty_set_is_false() {
    let tiles: Vec<Tile> = Vec::new();
    assert!(!touches_wall(&Rect::new(0, 0, 20, 20), &tiles));
}

#[test]
fn touches_wall_finds_a_late_wall() {
    let mut tiles = Vec::new();
    for i in 0..10u32 {
        tiles.push(Tile::new(i * 80, 0, TileSprite::Green));
    }
    tiles.push(Tile::new(800, 0, TileSprite::TopLeft));
    assert!(touches_wall(&Rect::new(810, 10, 20, 20), &tiles));
    assert!(!touches_wall(&Rect::new(410, 10, 20, 20), &tiles));
}

#[test]
fn tile_new_has_standard_size() {
    let t = Tile::new(160, 240, TileSprite::Bottom);
    assert_eq!(t.get_bounds(), Rect::new(160, 240, 80, 80));
    assert_eq!(t.get_sprite_type(), TileSprite::Bottom);
}

#[test]
fn render_quad_takes_the_size_of_the_clip() {
    assert_eq!(render_quad(5, 6, 320, 240, None), Rect::new(5, 6, 320, 240));
    assert_eq!(
        render_quad(5, 6, 320, 240, Some(Rect::new(80, 160, 80, 70))),
        Rect::new(5, 6, 80, 70)
    );
}
