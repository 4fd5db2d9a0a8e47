//! The collision resolver: hits, misses, touches, and face classification.

use breakout::ball_object::BallObject;
use breakout::collision::{check_collision, vector_direction, Direction};
use breakout::game_object::{Color, GameObject, Vec2};

fn ball_at(x: i64, y: i64, radius: i64) -> BallObject {
    BallObject::new(Vec2 { x, y }, 0, radius)
}

fn box_at(x: i64, y: i64, w: i64, h: i64) -> GameObject {
    GameObject::new(
        Vec2 { x, y },
        Vec2 { x: w, y: h },
        Vec2 { x: 0, y: 0 },
        1,
        Color { r: 1000, g: 1000, b: 1000 },
    )
}

#[test]
fn far_apart_is_a_miss() {
    // The circle's bounding box is nowhere near the brick (the separated
    // bounding-box criterion).
    let ball = ball_at(500_000, 500_000, 12_500);
    let brick = box_at(0, 0, 80_000, 60_000);
    let c = check_collision(&ball, &brick);
    assert!(!c.hit);
    assert_eq!(c.direction, Direction::Up);
    assert_eq!(c.diff, Vec2 { x: 0, y: 0 });
}

#[test]
fn overlap_from_below_is_a_down_hit() {
    // Ball center (102500, 107500) against a 200000 x 100000 box at the
    // origin: closest point (102500, 100000), delta (0, -7500), within the
    // radius.
    let ball = ball_at(90_000, 95_000, 12_500);
    let brick = box_at(0, 0, 200_000, 100_000);
    let c = check_collision(&ball, &brick);
    assert!(c.hit);
    assert_eq!(c.diff, Vec2 { x: 0, y: -7_500 });
    assert_eq!(c.direction, Direction::Down);
}

#[test]
fn exact_touch_is_a_miss() {
    // The closest point lies exactly one radius from the center: a strict
    // comparison, so touching never counts as a hit.
    let ball = ball_at(100_000, 200_000, 12_500);
    // Box bottom edge at y = 200000 + 12500 exactly one radius below the
    // center... center (112500, 212500); box top edge at 225000.
    let brick = box_at(50_000, 225_000, 200_000, 50_000);
    let c = check_collision(&ball, &brick);
    assert!(!c.hit);
}

#[test]
fn center_on_box_boundary_is_degenerate_miss() {
    // The circle's center lies inside the box, so the closest point is the
    // center itself: a zero delta is reported as a miss.
    let ball = ball_at(87_500, 37_500, 12_500);
    let brick = box_at(0, 0, 200_000, 100_000);
    let c = check_collision(&ball, &brick);
    assert!(!c.hit);
    assert_eq!(c.diff, Vec2 { x: 0, y: 0 });
}

#[test]
fn direction_prefers_up_on_ties() {
    // dots with (5, 5): Up 5, Right 5, Down -5, Left -5; the tie between Up
    // and Right goes to Up (enumeration order).
    assert_eq!(vector_direction(Vec2 { x: 5, y: 5 }), Direction::Up);
}

#[test]
fn direction_picks_the_largest_dot_product() {
    assert_eq!(vector_direction(Vec2 { x: 9, y: 2 }), Direction::Right);
    assert_eq!(vector_direction(Vec2 { x: -9, y: 2 }), Direction::Left);
    assert_eq!(vector_direction(Vec2 { x: 1, y: -7 }), Direction::Down);
    assert_eq!(vector_direction(Vec2 { x: 1, y: 7 }), Direction::Up);
    // Down/Left tie goes to Down.
    assert_eq!(vector_direction(Vec2 { x: -3, y: -3 }), Direction::Down);
}

#[test]
fn side_hit_reports_left_face() {
    // Ball just right of a brick, overlapping its right edge: delta points
    // left... the compass classifies which face was struck.
    let brick = box_at(0, 0, 100_000, 100_000);
    // center at (105000, 50000): closest point (100000, 50000), delta
    // (-5000, 0): dots [0, -5000, 0, 5000] -> Left.
    let ball = ball_at(92_500, 37_500, 12_500);
    let c = check_collision(&ball, &brick);
    assert!(c.hit);
    assert_eq!(c.diff, Vec2 { x: -5_000, y: 0 });
    assert_eq!(c.direction, Direction::Left);
}
