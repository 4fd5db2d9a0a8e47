//! The state machine: frames, bounces, launches, losses and resets.

use breakout::ball_object::BallObject;
use breakout::bounce::paddle_bounce;
use breakout::game::{Game, GameState, PaddleMove, TextureSet};
use breakout::game_level::LevelError;
use breakout::game_object::Vec2;

fn textures() -> TextureSet {
    TextureSet { background: 0, block: 1, block_solid: 2, paddle: 3, ball: 4 }
}

fn game_with_grid(width: i64, height: i64, grid: Vec<Vec<u32>>) -> Game {
    let mut game = Game::new(width, height, textures());
    game.add_level(&grid).unwrap();
    game
}

#[test]
fn one_frame_integrates_and_bounces_off_the_top_wall() {
    // Ball at (100, 100) pixels, velocity (100, -350) pixels per second,
    // level width 800: one full second of motion reaches (200, -250), and
    // the top-wall bounce clamps y to 0 and flips the vertical velocity.
    let mut ball = BallObject::new(Vec2 { x: 100_000, y: 100_000 }, 0, 12_500);
    ball.stuck = false;
    ball.game_obj.velocity = Vec2 { x: 100_000, y: -350_000 };
    ball.move_ball(1_000, 800_000);
    assert_eq!(ball.game_obj.position, Vec2 { x: 200_000, y: 0 });
    assert_eq!(ball.game_obj.velocity, Vec2 { x: 100_000, y: 350_000 });
}

#[test]
fn side_walls_clamp_and_reflect() {
    let mut ball = BallObject::new(Vec2 { x: 10_000, y: 100_000 }, 0, 12_500);
    ball.stuck = false;
    ball.game_obj.velocity = Vec2 { x: -100_000, y: 0 };
    ball.move_ball(1_000, 800_000);
    assert_eq!(ball.game_obj.position.x, 0);
    assert_eq!(ball.game_obj.velocity.x, 100_000);

    let mut ball = BallObject::new(Vec2 { x: 760_000, y: 100_000 }, 0, 12_500);
    ball.stuck = false;
    ball.game_obj.velocity = Vec2 { x: 100_000, y: 0 };
    ball.move_ball(1_000, 800_000);
    // Clamped so the right edge sits on the wall: 800000 - 25000.
    assert_eq!(ball.game_obj.position.x, 775_000);
    assert_eq!(ball.game_obj.velocity.x, -100_000);
}

#[test]
fn stuck_ball_ignores_motion_until_launched() {
    // The launch scenario: while stuck nothing moves; after launch_ball the
    // next frames integrate position by the stored velocity.
    let mut game = game_with_grid(800_000, 600_000, vec![vec![0]]);
    let before = game.ball.game_obj.position;
    game.update(100);
    assert_eq!(game.ball.game_obj.position, before);
    assert!(game.ball.stuck);

    game.launch_ball();
    assert!(!game.ball.stuck);
    game.update(100);
    // 0.1 s at (100, -350) pixels per second.
    assert_eq!(
        game.ball.game_obj.position,
        Vec2 { x: before.x + 10_000, y: before.y - 35_000 }
    );
}

#[test]
fn breakable_brick_is_destroyed_and_reflects_the_ball() {
    // One breakable brick filling the top half; the ball overlaps its
    // bottom face: the vertical velocity flips, the ball is pushed out by
    // the penetration depth, and the brick is destroyed.
    let mut game = game_with_grid(200_000, 200_000, vec![vec![2]]);
    game.ball.stuck = false;
    game.ball.game_obj.position = Vec2 { x: 90_000, y: 95_000 };
    game.ball.game_obj.velocity = Vec2 { x: 0, y: -100_000 };
    game.update(0);
    assert_eq!(game.ball.game_obj.velocity, Vec2 { x: 0, y: 100_000 });
    assert_eq!(game.ball.game_obj.position, Vec2 { x: 90_000, y: 100_000 });
    assert!(game.levels[0].bricks[0].destroyed);
}

#[test]
fn solid_brick_reflects_but_never_breaks() {
    let mut game = game_with_grid(200_000, 200_000, vec![vec![1]]);
    game.ball.stuck = false;
    game.ball.game_obj.position = Vec2 { x: 90_000, y: 95_000 };
    game.ball.game_obj.velocity = Vec2 { x: 0, y: -100_000 };
    game.update(0);
    assert_eq!(game.ball.game_obj.velocity, Vec2 { x: 0, y: 100_000 });
    assert!(!game.levels[0].bricks[0].destroyed);
    assert!(game.levels[0].bricks[0].is_solid);
}

#[test]
fn destroyed_brick_never_alters_the_ball() {
    // Idempotence of destruction: the same overlap against an
    // already-destroyed brick leaves ball position and velocity alone.
    let mut game = game_with_grid(200_000, 200_000, vec![vec![2]]);
    game.levels[0].bricks[0].destroyed = true;
    game.ball.stuck = false;
    game.ball.game_obj.position = Vec2 { x: 90_000, y: 95_000 };
    game.ball.game_obj.velocity = Vec2 { x: 0, y: -100_000 };
    game.update(0);
    assert_eq!(game.ball.game_obj.velocity, Vec2 { x: 0, y: -100_000 });
    assert_eq!(game.ball.game_obj.position, Vec2 { x: 90_000, y: 95_000 });
}

#[test]
fn paddle_bounce_keeps_the_speed() {
    // A hit three quarters along the paddle's right half: the horizontal
    // component follows the deflection, the ball leaves upward, and the
    // squared speed is preserved within a few rounding units.
    let before = Vec2 { x: 100_000, y: 350_000 };
    let after = paddle_bounce(before, 25_000, 50_000);
    assert_eq!(after, Vec2 { x: 100_000, y: -349_999 });
    let n_before = before.x * before.x + before.y * before.y;
    let n_after = after.x * after.x + after.y * after.y;
    assert!(n_after <= n_before);
    // Within a relative tolerance far below 1e-4.
    assert!((n_before - n_after) as f64 / (n_before as f64) < 1e-5);
}

#[test]
fn paddle_hit_in_a_frame_sends_the_ball_up() {
    let mut game = game_with_grid(800_000, 600_000, vec![vec![0]]);
    game.ball.stuck = false;
    game.ball.game_obj.position = Vec2 { x: 412_500, y: 565_500 };
    game.ball.game_obj.velocity = Vec2 { x: 100_000, y: 350_000 };
    game.update(0);
    assert_eq!(game.ball.game_obj.velocity, Vec2 { x: 100_000, y: -349_999 });
    assert!(game.ball.game_obj.velocity.y < 0);
}

#[test]
fn losing_the_ball_resets_paddle_and_ball() {
    // Life loss always recenters the paddle and re-sticks the ball at the
    // paddle-relative offset, whatever the lives counter says.
    let mut game = game_with_grid(800_000, 600_000, vec![vec![0]]);
    game.launch_ball();
    game.ball.game_obj.velocity = Vec2 { x: 0, y: 400_000 };
    game.update(1_000);
    assert_eq!(game.lives, 2);
    assert_eq!(game.player.position, Vec2 { x: 350_000, y: 580_000 });
    assert_eq!(game.player.size, Vec2 { x: 100_000, y: 20_000 });
    assert!(game.ball.stuck);
    assert_eq!(game.ball.game_obj.position, Vec2 { x: 387_500, y: 555_000 });
    assert_eq!(game.ball.game_obj.velocity, Vec2 { x: 100_000, y: -350_000 });
}

#[test]
fn last_life_reloads_the_level() {
    let mut game = game_with_grid(800_000, 600_000, vec![vec![2, 2]]);
    game.lives = 1;
    game.levels[0].bricks[1].destroyed = true;
    game.launch_ball();
    game.ball.game_obj.velocity = Vec2 { x: 0, y: 400_000 };
    game.update(1_000);
    // The full reset restores the bricks and the three lives.
    assert_eq!(game.lives, 3);
    assert_eq!(game.state, GameState::Active);
    assert!(!game.levels[0].bricks[1].destroyed);
    assert!(game.ball.stuck);
}

#[test]
fn cycling_levels_wraps_both_ways() {
    let mut game = game_with_grid(800_000, 600_000, vec![vec![0]]);
    game.add_level(&vec![vec![2]]).unwrap();
    game.add_level(&vec![vec![3]]).unwrap();
    assert_eq!(game.current_level, 0);
    game.cycle_level(true);
    assert_eq!(game.current_level, 1);
    game.cycle_level(true);
    assert_eq!(game.current_level, 2);
    game.cycle_level(true);
    assert_eq!(game.current_level, 0);
    game.cycle_level(false);
    assert_eq!(game.current_level, 2);
    game.cycle_level(false);
    assert_eq!(game.current_level, 1);
}

#[test]
fn paddle_movement_is_clamped_to_the_level() {
    let mut game = game_with_grid(800_000, 600_000, vec![vec![0]]);
    // 0.5 s at 500 px/s times the factor of 4: a full 1000 pixels, clamped
    // at the left wall.
    game.move_paddle(PaddleMove::Left, 500);
    assert_eq!(game.player.position.x, 0);
    game.move_paddle(PaddleMove::Right, 250);
    // 500 * 4 * 0.25 s = 500 pixels from the wall.
    assert_eq!(game.player.position.x, 500_000);
    game.move_paddle(PaddleMove::Right, 500);
    // Clamped so the right edge stays on the level edge.
    assert_eq!(game.player.position.x, 700_000);
}

#[test]
fn render_lists_background_live_bricks_paddle_and_ball() {
    let mut game = game_with_grid(800_000, 600_000, vec![vec![2, 0, 3]]);
    let cmds = game.render();
    // Background, two live bricks, paddle, ball.
    assert_eq!(cmds.len(), 5);
    assert_eq!(cmds[0].sprite, textures().background);
    assert_eq!(cmds[0].position, Vec2 { x: 0, y: 0 });
    assert_eq!(cmds[0].size, Vec2 { x: 800_000, y: 600_000 });
    assert_eq!(cmds[3].sprite, textures().paddle);
    assert_eq!(cmds[4].sprite, textures().ball);

    game.levels[0].bricks[0].destroyed = true;
    let cmds = game.render();
    assert_eq!(cmds.len(), 4);
    assert_eq!(cmds[1].position.x, 533_332);
}

#[test]
fn add_level_rejects_malformed_grids() {
    let mut game = Game::new(800_000, 600_000, textures());
    assert_eq!(game.add_level(&Vec::new()), Err(LevelError::EmptyGrid));
    assert_eq!(
        game.add_level(&vec![vec![1, 2], vec![1]]),
        Err(LevelError::RaggedRows)
    );
    assert_eq!(game.levels.len(), 0);
}

#[test]
fn non_active_modes_render_nothing_but_still_simulate() {
    let mut game = game_with_grid(800_000, 600_000, vec![vec![0]]);
    game.state = GameState::Menu;
    assert!(game.render().is_empty());
    // The frame update itself does not depend on the mode.
    game.launch_ball();
    let y_before = game.ball.game_obj.position.y;
    game.update(100);
    assert_eq!(game.ball.game_obj.position.y, y_before - 35_000);
}

#[test]
fn reset_player_recenters_everything() {
    let mut game = game_with_grid(800_000, 600_000, vec![vec![0]]);
    game.move_paddle(PaddleMove::Right, 100);
    game.launch_ball();
    game.update(50);
    game.reset_player();
    assert_eq!(game.player.position, Vec2 { x: 350_000, y: 580_000 });
    assert!(game.ball.stuck);
    assert_eq!(game.ball.game_obj.position, Vec2 { x: 387_500, y: 555_000 });
    assert_eq!(game.ball.game_obj.velocity, Vec2 { x: 100_000, y: -350_000 });
}

#[test]
fn reset_level_restores_bricks_and_lives() {
    let mut game = game_with_grid(800_000, 600_000, vec![vec![2, 3, 4]]);
    game.levels[0].bricks[0].destroyed = true;
    game.lives = 1;
    game.reset_level();
    assert_eq!(game.lives, 3);
    assert!(game.levels[0].bricks.iter().all(|b| !b.destroyed));
}
