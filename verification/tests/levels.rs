//! Level construction from tile grids.

use breakout::game_level::{GameLevel, LevelError};
use breakout::game_object::Color;

const SOLID_TEX: usize = 7;
const BLOCK_TEX: usize = 8;

fn grid_10x5() -> Vec<Vec<u32>> {
    vec![
        vec![1, 1, 1, 1, 1, 1, 1, 1, 1, 1],
        vec![2, 2, 0, 3, 0, 4, 0, 5, 6, 0],
        vec![0; 10],
        vec![0; 10],
        vec![0; 10],
    ]
}

#[test]
fn grid_tiles_the_region_exactly() {
    // A 10 x 5 grid over an 800 x 300 pixel region: every brick is exactly
    // 80 x 60 pixels, the first row solid and textured with the solid
    // sprite, and empty tiles produce no brick.
    let mut level = GameLevel::new();
    let res = level.load(&grid_10x5(), 800_000, 300_000, SOLID_TEX, BLOCK_TEX);
    assert_eq!(res, Ok(()));
    // 10 solid bricks plus the 6 non-empty tiles of the second row.
    assert_eq!(level.bricks.len(), 16);
    for (i, brick) in level.bricks.iter().take(10).enumerate() {
        assert_eq!(brick.size.x, 80_000);
        assert_eq!(brick.size.y, 60_000);
        assert_eq!(brick.position.x, 80_000 * i as i64);
        assert_eq!(brick.position.y, 0);
        assert!(brick.is_solid);
        assert!(!brick.destroyed);
        assert_eq!(brick.sprite, SOLID_TEX);
        assert_eq!(brick.color, Color { r: 800, g: 800, b: 700 });
    }
    for brick in level.bricks.iter().skip(10) {
        assert!(!brick.is_solid);
        assert_eq!(brick.sprite, BLOCK_TEX);
        assert_eq!(brick.position.y, 60_000);
    }
    // The breakable bricks sit at the non-zero tiles of the second row.
    let xs: Vec<i64> = level.bricks.iter().skip(10).map(|b| b.position.x).collect();
    assert_eq!(xs, vec![0, 80_000, 240_000, 400_000, 560_000, 640_000]);
}

#[test]
fn tile_values_select_tints() {
    let mut level = GameLevel::new();
    let grid = vec![vec![2, 3, 4, 5, 6]];
    level.load(&grid, 500_000, 100_000, SOLID_TEX, BLOCK_TEX).unwrap();
    assert_eq!(level.bricks[0].color, Color { r: 200, g: 600, b: 1000 });
    assert_eq!(level.bricks[1].color, Color { r: 0, g: 700, b: 0 });
    assert_eq!(level.bricks[2].color, Color { r: 800, g: 800, b: 400 });
    assert_eq!(level.bricks[3].color, Color { r: 1000, g: 500, b: 0 });
    // Values past the named palette fall back to white.
    assert_eq!(level.bricks[4].color, Color { r: 1000, g: 1000, b: 1000 });
}

#[test]
fn empty_grid_is_rejected() {
    let mut level = GameLevel::new();
    assert_eq!(
        level.load(&Vec::new(), 800_000, 300_000, SOLID_TEX, BLOCK_TEX),
        Err(LevelError::EmptyGrid)
    );
    assert_eq!(
        level.load(&vec![Vec::new()], 800_000, 300_000, SOLID_TEX, BLOCK_TEX),
        Err(LevelError::EmptyGrid)
    );
    assert_eq!(level.bricks.len(), 0);
}

#[test]
fn ragged_grid_is_rejected() {
    let mut level = GameLevel::new();
    let grid = vec![vec![1, 1, 1], vec![1, 1]];
    assert_eq!(
        level.load(&grid, 800_000, 300_000, SOLID_TEX, BLOCK_TEX),
        Err(LevelError::RaggedRows)
    );
}

#[test]
fn more_tiles_than_units_is_rejected() {
    let mut level = GameLevel::new();
    let grid = vec![vec![1, 1, 1, 1, 1, 1, 1, 1, 1, 1]];
    assert_eq!(level.load(&grid, 5, 100, SOLID_TEX, BLOCK_TEX), Err(LevelError::DegenerateTile));
}

#[test]
fn reset_restores_the_freshly_built_bricks() {
    let mut level = GameLevel::new();
    level.load(&grid_10x5(), 800_000, 300_000, SOLID_TEX, BLOCK_TEX).unwrap();
    let fresh = level.bricks.clone();
    level.bricks[12].destroyed = true;
    level.bricks[15].destroyed = true;
    level.reset();
    assert_eq!(level.bricks, fresh);
    assert!(level.bricks.iter().all(|b| !b.destroyed));
}
