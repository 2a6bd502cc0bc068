use pong::ball::Ball;
use pong::config::{Config, Side};
use pong::game::Game;
use pong::geometry::{Point, Velocity};
use pong::paddle::Keyboard;
use pong::scene::Paint;
use pong::units::{HALF_UNIT, SECOND, UNIT, UNIT_PER_SECOND};
use rand::rngs::StdRng;
use rand::{Rng, SeedableRng};

const NONE: Keyboard = Keyboard { w: false, s: false, arrow_up: false, arrow_down: false };
const FRAME: u64 = 16_667;

fn game_with_ball(x: i64, y: i64, vx: i64, vy: i64) -> Game {
    let mut game = Game::new(Config::standard());
    game.ball = Ball { position: Point { x, y }, velocity: Velocity { x: vx, y: vy } };
    game
}

#[test]
fn new_game_has_paddles_in_slots_and_ball_in_the_middle() {
    let game = Game::new(Config::standard());
    assert_eq!(game.config, Config::standard());
    assert_eq!(game.left.position, Point { x: -330 * UNIT, y: 0 });
    assert_eq!(game.right.position, Point { x: 330 * UNIT, y: 0 });
    assert_eq!(game.left.bindings, Side::Left.bindings());
    assert_eq!(game.right.bindings, Side::Right.bindings());
    assert_eq!(game.ball.position, Point { x: 0, y: 0 });
    assert_eq!(game.ball.velocity, Velocity { x: -100 * UNIT_PER_SECOND, y: 0 });
    assert!(game.is_valid());
}

#[test]
fn paddles_are_told_apart_by_side() {
    let game = Game::new(Config::standard());
    assert_eq!(*game.paddle(Side::Left), game.left);
    assert_eq!(*game.paddle(Side::Right), game.right);
}

#[test]
fn frame_moves_the_paddles_and_the_ball() {
    let mut game = Game::new(Config::standard());
    let keys = Keyboard { w: true, s: false, arrow_up: false, arrow_down: true };
    assert!(game.fits(SECOND));
    game.tick_with(&keys, SECOND, 5, -7);
    assert_eq!(game.left.position, Point { x: -330 * UNIT, y: 175 * UNIT });
    assert_eq!(game.right.position, Point { x: 330 * UNIT, y: -175 * UNIT });
    assert_eq!(game.ball.position, Point { x: -100 * UNIT, y: 0 });
    assert_eq!(game.ball.velocity, Velocity { x: -100 * UNIT_PER_SECOND, y: 0 });
    assert!(game.is_valid());
}

#[test]
fn frame_in_free_flight_is_linear_motion() {
    let mut game = game_with_ball(10 * UNIT, 20 * UNIT, 60_000, -30_000);
    let mut rng = StdRng::seed_from_u64(1);
    let untouched = rng.clone();
    for step in 1..=60i64 {
        game.tick(&NONE, FRAME, &mut rng);
        assert_eq!(game.ball.position.x, 10 * UNIT + step * 60_000 * FRAME as i64);
        assert_eq!(game.ball.position.y, 20 * UNIT - step * 30_000 * FRAME as i64);
        assert_eq!(game.ball.velocity, Velocity { x: 60_000, y: -30_000 });
    }
    assert_eq!(rng, untouched);
}

#[test]
fn frame_reflects_the_ball_at_the_wall_it_has_moved_into() {
    let mut game = game_with_ball(0, 237 * UNIT, 0, 50 * UNIT_PER_SECOND);
    game.tick_with(&NONE, SECOND / 100, 0, 0);
    assert_eq!(game.ball.position, Point { x: 0, y: 237 * UNIT + HALF_UNIT });
    assert_eq!(game.ball.velocity.y, 50 * UNIT_PER_SECOND);
    game.tick_with(&NONE, SECOND / 100, 0, 0);
    assert_eq!(game.ball.position, Point { x: 0, y: 238 * UNIT });
    assert_eq!(game.ball.velocity.y, -50 * UNIT_PER_SECOND);
    game.tick_with(&NONE, SECOND / 100, 0, 0);
    assert_eq!(game.ball.position, Point { x: 0, y: 237 * UNIT + HALF_UNIT });
    assert_eq!(game.ball.velocity.y, -50 * UNIT_PER_SECOND);
}

#[test]
fn frame_rebounds_the_ball_from_the_paddle_it_has_moved_into() {
    let mut game = game_with_ball(-310 * UNIT, 0, -100 * UNIT_PER_SECOND, 0);
    game.tick_with(&NONE, SECOND / 10, 25_000, -60_000);
    assert_eq!(game.ball.position, Point { x: -320 * UNIT, y: 0 });
    assert_eq!(game.ball.velocity, Velocity { x: 100 * UNIT_PER_SECOND, y: 25_000 });
    let mut right = game_with_ball(310 * UNIT, 0, 100 * UNIT_PER_SECOND, 0);
    right.tick_with(&NONE, SECOND / 10, 25_000, -60_000);
    assert_eq!(right.ball.position, Point { x: 320 * UNIT, y: 0 });
    assert_eq!(right.ball.velocity, Velocity { x: -100 * UNIT_PER_SECOND, y: -60_000 });
}

#[test]
fn frame_tests_the_paddle_where_it_has_been_steered_to() {
    let keys = Keyboard { w: true, s: false, arrow_up: false, arrow_down: false };
    let mut dodged = game_with_ball(-310 * UNIT, -70 * UNIT, -100 * UNIT_PER_SECOND, 0);
    dodged.tick_with(&keys, SECOND / 10, 25_000, 0);
    assert_eq!(dodged.left.position.y, 20 * UNIT);
    assert_eq!(dodged.ball.velocity, Velocity { x: -100 * UNIT_PER_SECOND, y: 0 });
    let mut met = game_with_ball(-310 * UNIT, 100 * UNIT, -100 * UNIT_PER_SECOND, 0);
    met.tick_with(&keys, SECOND / 10, 25_000, 0);
    assert_eq!(met.ball.velocity, Velocity { x: 100 * UNIT_PER_SECOND, y: 25_000 });
}

#[test]
fn ball_at_a_wall_and_a_paddle_is_reflected_and_rebounds() {
    let mut game = game_with_ball(-330 * UNIT, 240 * UNIT, -100 * UNIT_PER_SECOND, 80_000);
    game.left.position.y = 175 * UNIT;
    game.tick_with(&NONE, 0, -1_000, 0);
    assert_eq!(game.ball.velocity, Velocity { x: 100 * UNIT_PER_SECOND, y: -1_000 });
}

#[test]
fn ball_that_overlaps_both_paddles_is_turned_twice() {
    let mut cfg = Config::standard();
    cfg.ball_size = 700;
    cfg.height = 2_000;
    let mut game = Game::new(cfg);
    game.tick_with(&NONE, 0, 11, 22);
    assert_eq!(game.ball.velocity, Velocity { x: -100 * UNIT_PER_SECOND, y: 22 });
    let mut rng = StdRng::seed_from_u64(3);
    let mut twin = rng.clone();
    let mut drawn = Game::new(cfg);
    drawn.tick(&NONE, 0, &mut rng);
    let _first: i64 = twin.gen_range(-100_000i64..=100_000);
    let second: i64 = twin.gen_range(-100_000i64..=100_000);
    assert_eq!(drawn.ball.velocity, Velocity { x: -100 * UNIT_PER_SECOND, y: second });
    assert_eq!(rng, twin);
}

#[test]
fn frame_with_a_generator_is_a_frame_with_its_draw() {
    for seed in 0..50u64 {
        let before = game_with_ball(-310 * UNIT, 0, -100 * UNIT_PER_SECOND, 0);
        let mut rng = StdRng::seed_from_u64(seed);
        let mut drawn = before;
        drawn.tick(&NONE, SECOND / 10, &mut rng);
        let vy = drawn.ball.velocity.y;
        assert!(-100 * UNIT_PER_SECOND <= vy && vy <= 100 * UNIT_PER_SECOND);
        let mut given = before;
        given.tick_with(&NONE, SECOND / 10, vy, 0);
        assert_eq!(drawn, given);
    }
}

#[test]
fn same_seed_replays_the_same_game() {
    let keys = Keyboard { w: true, s: false, arrow_up: false, arrow_down: true };
    let mut first = Game::new(Config::standard());
    let mut second = Game::new(Config::standard());
    let mut rng_first = StdRng::seed_from_u64(77);
    let mut rng_second = StdRng::seed_from_u64(77);
    for _ in 0..2_000 {
        first.tick(&keys, FRAME, &mut rng_first);
        second.tick(&keys, FRAME, &mut rng_second);
        assert_eq!(first, second);
    }
}

#[test]
fn ball_that_passes_a_paddle_leaves_the_field_for_good() {
    let mut game = Game::new(Config::standard());
    game.left.position.y = 175 * UNIT;
    let mut rng = StdRng::seed_from_u64(4);
    for _ in 0..10 {
        game.tick(&NONE, SECOND, &mut rng);
    }
    assert_eq!(game.ball.position, Point { x: -1_000 * UNIT, y: 0 });
    assert_eq!(game.ball.velocity, Velocity { x: -100 * UNIT_PER_SECOND, y: 0 });
    assert!(game.ball.position.x < -game.config.half_width());
}

#[test]
fn long_game_keeps_its_invariants() {
    let mut game = Game::new(Config::standard());
    let mut rng = StdRng::seed_from_u64(12);
    let mut keys_rng = StdRng::seed_from_u64(13);
    let mut rebounds: u32 = 0;
    for _ in 0..20_000 {
        let keys = Keyboard {
            w: keys_rng.gen_range(0..2) == 1,
            s: keys_rng.gen_range(0..2) == 1,
            arrow_up: keys_rng.gen_range(0..2) == 1,
            arrow_down: keys_rng.gen_range(0..2) == 1,
        };
        let before = game;
        assert!(game.fits(FRAME));
        game.tick(&keys, FRAME, &mut rng);
        assert!(game.is_valid());
        assert!(game.left.position.y.abs() <= 175 * UNIT);
        assert!(game.right.position.y.abs() <= 175 * UNIT);
        assert_eq!(game.left.position.x, -330 * UNIT);
        assert_eq!(game.right.position.x, 330 * UNIT);
        assert_eq!(game.ball.velocity.x.abs(), 100 * UNIT_PER_SECOND);
        assert_eq!(
            game.ball.position.x,
            before.ball.position.x + before.ball.velocity.x * FRAME as i64
        );
        assert_eq!(
            game.ball.position.y,
            before.ball.position.y + before.ball.velocity.y * FRAME as i64
        );
        if game.ball.velocity.x != before.ball.velocity.x {
            rebounds += 1;
            assert!(game.ball.velocity.y.abs() <= 100 * UNIT_PER_SECOND);
        }
    }
    assert!(rebounds > 0);
}

#[test]
fn game_with_a_stray_paddle_is_not_valid() {
    let mut game = Game::new(Config::standard());
    game.right.position.y = 175 * UNIT + 1;
    assert!(!game.is_valid());
    game.right.restrain(&Config::standard());
    assert!(game.is_valid());
    game.ball.velocity.y = i64::MIN;
    assert!(!game.is_valid());
}

#[test]
fn frame_that_would_leave_the_grid_does_not_fit() {
    let game = game_with_ball(i64::MAX - 5, 0, 1, 0);
    assert!(game.fits(5));
    assert!(!game.fits(6));
}

#[test]
fn sprites_show_the_game_as_it_is() {
    let mut game = Game::new(Config::standard());
    game.tick_with(
        &Keyboard { w: true, s: false, arrow_up: false, arrow_down: false },
        SECOND / 10,
        0,
        0,
    );
    let backdrop = game.backdrop();
    assert_eq!(backdrop.paint, Paint::Black);
    assert!(!backdrop.textured);
    assert_eq!(backdrop.area.center, Point { x: 0, y: 0 });
    assert_eq!(backdrop.area.half_width, 350 * UNIT);
    assert_eq!(backdrop.area.half_height, 250 * UNIT);
    let left = game.paddle_sprite(Side::Left);
    assert_eq!(left.paint, Paint::White);
    assert!(!left.textured);
    assert_eq!(left.area.center, Point { x: -330 * UNIT, y: 20 * UNIT });
    assert_eq!(left.area.half_width, 5 * UNIT);
    assert_eq!(left.area.half_height, 75 * UNIT);
    let right = game.paddle_sprite(Side::Right);
    assert_eq!(right.area.center, Point { x: 330 * UNIT, y: 0 });
    let ball = game.ball_sprite();
    assert_eq!(ball.paint, Paint::White);
    assert!(ball.textured);
    assert_eq!(ball.area.center, Point { x: -10 * UNIT, y: 0 });
    assert_eq!(ball.area.half_width, 12 * UNIT + HALF_UNIT);
}

#[test]
fn try_tick_plays_the_frame_that_tick_plays() {
    let keys = Keyboard { w: false, s: true, arrow_up: true, arrow_down: false };
    let mut tried = game_with_ball(-310 * UNIT, 0, -100 * UNIT_PER_SECOND, 0);
    let mut played = tried;
    let mut rng_tried = StdRng::seed_from_u64(21);
    let mut rng_played = StdRng::seed_from_u64(21);
    assert!(tried.try_tick(&keys, SECOND / 10, &mut rng_tried));
    played.tick(&keys, SECOND / 10, &mut rng_played);
    assert_eq!(tried, played);
    assert_eq!(tried.left.position.y, -20 * UNIT);
    assert_eq!(tried.right.position.y, 20 * UNIT);
    assert_eq!(tried.ball.velocity.x, 100 * UNIT_PER_SECOND);
}

#[test]
fn try_tick_leaves_a_game_that_cannot_be_played() {
    let keys = Keyboard { w: true, s: false, arrow_up: true, arrow_down: false };
    let mut rng = StdRng::seed_from_u64(8);
    let untouched = rng.clone();

    let mut off_grid = game_with_ball(i64::MIN + 5, 0, -1, 0);
    let before = off_grid;
    assert!(off_grid.try_tick(&keys, 5, &mut rng));
    assert_eq!(off_grid.ball.position.x, i64::MIN);
    let at_the_end = off_grid;
    assert!(!off_grid.try_tick(&keys, 1, &mut rng));
    assert_eq!(off_grid, at_the_end);
    assert_ne!(off_grid, before);

    let mut stray = Game::new(Config::standard());
    stray.left.position.y = 300 * UNIT;
    let stray_before = stray;
    assert!(!stray.try_tick(&keys, FRAME, &mut rng));
    assert_eq!(stray, stray_before);

    let mut headlong = game_with_ball(0, 0, i64::MIN, 0);
    let headlong_before = headlong;
    assert!(!headlong.try_tick(&keys, 0, &mut rng));
    assert_eq!(headlong, headlong_before);

    let mut cramped = Game::new(Config::standard());
    cramped.config.paddle_height = 600;
    let cramped_before = cramped;
    assert!(!cramped.try_tick(&keys, FRAME, &mut rng));
    assert_eq!(cramped, cramped_before);

    assert_eq!(rng, untouched);
}
