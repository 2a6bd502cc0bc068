//! A whole game, and the frame that advances it: the paddle controller for
//! both paddles, then the ball simulator.

use vstd::prelude::*;
use vstd::math::abs;
use rand::rngs::StdRng;
use crate::ball::Ball;
use crate::config::{Config, Side};
use crate::geometry::Point;
use crate::paddle::{Keyboard, Paddle};
use crate::units::travel;

verus! {

/// The state of a game: its measures, the two paddles and the ball.
#[derive(Clone, Copy, Debug, PartialEq, Eq, Structural)]
pub struct Game {
    pub config: Config,
    pub left: Paddle,
    pub right: Paddle,
    pub ball: Ball,
}

impl Game {
    /// The measures are sound, both paddles are between the walls, and the
    /// velocity of the ball can be turned round.
    pub open spec fn wf(self) -> bool {
        &&& self.config.wf()
        &&& self.left.in_field(self.config)
        &&& self.right.in_field(self.config)
        &&& self.ball.wf()
    }

    /// Whether the state is well formed.
    pub fn is_valid(&self) -> (ok: bool)
        ensures
            ok == self.wf(),
    {
        self.config.is_valid() && self.left.is_in_field(&self.config) && self.right.is_in_field(
            &self.config,
        ) && self.ball.is_valid()
    }

    /// A game as it begins: each paddle in its slot at mid-height, the ball
    /// in the middle of the field, served.
    pub fn new(config: Config) -> (game: Game)
        requires
            config.wf(),
        ensures
            game.config == config,
            game.left.position.x == config.spec_slot_x(Side::Left),
            game.left.position.y == 0,
            game.left.bindings == Side::Left.spec_bindings(),
            game.right.position.x == config.spec_slot_x(Side::Right),
            game.right.position.y == 0,
            game.right.bindings == Side::Right.spec_bindings(),
            game.ball.position == (Point { x: 0, y: 0 }),
            game.ball.velocity == config.spec_serve(),
            game.wf(),
    {
        Game {
            config,
            left: Paddle::spawn(&config, Side::Left),
            right: Paddle::spawn(&config, Side::Right),
            ball: Ball::spawn(&config),
        }
    }

    /// The paddle of `side`.
    pub open spec fn spec_paddle(self, side: Side) -> Paddle {
        match side {
            Side::Left => self.left,
            Side::Right => self.right,
        }
    }

    /// The paddle of `side`.
    pub fn paddle(&self, side: Side) -> (p: &Paddle)
        ensures
            *p == self.spec_paddle(side),
    {
        match side {
            Side::Left => &self.left,
            Side::Right => &self.right,
        }
    }

    /// The ball can move for `dt` and still be on the grid.
    pub open spec fn can_tick(self, dt: u64) -> bool {
        self.ball.can_integrate(dt)
    }

    /// Whether the ball can move for `dt` and still be on the grid.
    pub fn fits(&self, dt: u64) -> (ok: bool)
        ensures
            ok == self.can_tick(dt),
    {
        self.ball.fits(dt)
    }

    /// The game after a frame of `dt` with `keys` held, where the left
    /// paddle answers the ball with the vertical speed `left_vy` and the
    /// right paddle with `right_vy`.
    ///
    /// Both paddles are steered first. Then the ball moves, is reflected if
    /// it reaches past a wall where it now is, and rebounds from the left and
    /// then from the right paddle if it overlaps them where they now are.
    pub open spec fn spec_tick_with(
        self,
        keys: Keyboard,
        dt: u64,
        left_vy: i64,
        right_vy: i64,
    ) -> Game {
        let left = self.left.spec_steer(self.config, keys, dt);
        let right = self.right.spec_steer(self.config, keys, dt);
        let ball = self.ball.spec_integrate(dt).spec_reflect_off_walls(
            self.config,
        ).spec_bounce_with(self.config, left, left_vy).spec_bounce_with(
            self.config,
            right,
            right_vy,
        );
        Game { config: self.config, left, right, ball }
    }

    /// One frame with the draws made beforehand: `left_vy` is used if the
    /// ball overlaps the left paddle, `right_vy` if it overlaps the right
    /// one, and a draw that is not used leaves no trace.
    pub fn tick_with(&mut self, keys: &Keyboard, dt: u64, left_vy: i64, right_vy: i64)
        requires
            old(self).wf(),
            old(self).can_tick(dt),
            old(self).config.allows_rebound(left_vy as int),
            old(self).config.allows_rebound(right_vy as int),
        ensures
            *final(self) == old(self).spec_tick_with(*keys, dt, left_vy, right_vy),
            final(self).wf(),
    {
        let config: Config = self.config;
        self.left.steer(&config, keys, dt);
        self.right.steer(&config, keys, dt);
        self.ball.integrate(dt);
        self.ball.reflect_off_walls(&config);
        self.ball.bounce_with(&config, &self.left, left_vy);
        self.ball.bounce_with(&config, &self.right, right_vy);
    }

    /// A frame of `dt` with `keys` held can lead from this game to `after`:
    /// it does so for some pair of draws within the rebound limit.
    pub open spec fn ticks_to(self, keys: Keyboard, dt: u64, after: Game) -> bool {
        exists|left_vy: i64, right_vy: i64|
            self.config.allows_rebound(left_vy as int) && self.config.allows_rebound(
                right_vy as int,
            ) && after == #[trigger] self.spec_tick_with(keys, dt, left_vy, right_vy)
    }

    /// One frame: the paddle controller for both paddles, then the ball
    /// simulator, which draws from `rng` once for each paddle that the ball
    /// overlaps.
    ///
    /// The frame is the one that `tick_with` plays for some pair of draws
    /// within the rebound limit. Where the paddles end and where the ball
    /// ends do not depend on the draws.
    pub fn tick(&mut self, keys: &Keyboard, dt: u64, rng: &mut StdRng)
        requires
            old(self).wf(),
            old(self).can_tick(dt),
        ensures
            old(self).ticks_to(*keys, dt, *final(self)),
            final(self).config == old(self).config,
            final(self).left == old(self).left.spec_steer(old(self).config, *keys, dt),
            final(self).right == old(self).right.spec_steer(old(self).config, *keys, dt),
            final(self).ball.position == old(self).ball.spec_integrate(dt).position,
            final(self).wf(),
    {
        let config: Config = self.config;
        self.left.steer(&config, keys, dt);
        self.right.steer(&config, keys, dt);
        self.ball.integrate(dt);
        self.ball.reflect_off_walls(&config);
        let ghost before_left: Ball = self.ball;
        self.ball.bounce(&config, &self.left, rng);
        let ghost before_right: Ball = self.ball;
        self.ball.bounce(&config, &self.right, rng);
        proof {
            // The draws that were made stand for themselves; where none was
            // made, any speed within the limit does.
            let left_vy: i64 = if before_left.spec_overlaps(config, self.left) {
                before_right.velocity.y
            } else {
                0
            };
            let right_vy: i64 = if before_right.spec_overlaps(config, self.right) {
                self.ball.velocity.y
            } else {
                0
            };
            assert(*self == old(self).spec_tick_with(*keys, dt, left_vy, right_vy));
        }
    }

    /// One frame, if it can be played: a game that is well formed, and whose
    /// ball stays on the grid for `dt`, is advanced as by `tick`. Any other
    /// game is left as it is. Returns whether the frame was played.
    pub fn try_tick(&mut self, keys: &Keyboard, dt: u64, rng: &mut StdRng) -> (played: bool)
        ensures
            played == (old(self).wf() && old(self).can_tick(dt)),
            played ==> old(self).ticks_to(*keys, dt, *final(self)),
            played ==> final(self).wf(),
            !played ==> *final(self) == *old(self),
    {
        if self.is_valid() && self.fits(dt) {
            self.tick(keys, dt, rng);
            true
        } else {
            false
        }
    }
}

/// Free flight: in a frame in which the ball, where it has moved to, reaches
/// past no wall and overlaps no paddle, it has moved in a straight line and
/// kept its velocity, whatever was drawn.
pub proof fn lemma_free_flight(game: Game, keys: Keyboard, dt: u64, left_vy: i64, right_vy: i64)
    requires
        game.wf(),
        game.can_tick(dt),
        !game.ball.spec_integrate(dt).beyond_wall(game.config),
        !game.ball.spec_integrate(dt).spec_overlaps(
            game.config,
            game.left.spec_steer(game.config, keys, dt),
        ),
        !game.ball.spec_integrate(dt).spec_overlaps(
            game.config,
            game.right.spec_steer(game.config, keys, dt),
        ),
    ensures
        game.spec_tick_with(keys, dt, left_vy, right_vy).ball == game.ball.spec_integrate(dt),
        game.spec_tick_with(keys, dt, left_vy, right_vy).ball.velocity == game.ball.velocity,
        game.spec_tick_with(keys, dt, left_vy, right_vy).ball.position.x == game.ball.position.x
            + travel(game.ball.velocity.x as int, dt as int),
        game.spec_tick_with(keys, dt, left_vy, right_vy).ball.position.y == game.ball.position.y
            + travel(game.ball.velocity.y as int, dt as int),
{
}

/// Where the ball is after a frame never depends on what was drawn nor on
/// what it met: the ball is moved by integration alone.
pub proof fn lemma_position_is_integrated(
    game: Game,
    keys: Keyboard,
    dt: u64,
    left_vy: i64,
    right_vy: i64,
)
    requires
        game.wf(),
        game.can_tick(dt),
    ensures
        game.spec_tick_with(keys, dt, left_vy, right_vy).ball.position == game.ball.spec_integrate(
            dt,
        ).position,
{
}

/// A frame keeps the game well formed: the paddles stay between the walls,
/// and the velocity of the ball can still be turned round.
pub proof fn lemma_tick_keeps_wf(game: Game, keys: Keyboard, dt: u64, left_vy: i64, right_vy: i64)
    requires
        game.wf(),
        game.can_tick(dt),
        game.config.allows_rebound(left_vy as int),
        game.config.allows_rebound(right_vy as int),
    ensures
        game.spec_tick_with(keys, dt, left_vy, right_vy).wf(),
{
}

/// The horizontal speed of the ball keeps its size through every frame:
/// walls leave it alone and paddles only change its sign.
pub proof fn lemma_horizontal_speed_keeps_size(
    game: Game,
    keys: Keyboard,
    dt: u64,
    left_vy: i64,
    right_vy: i64,
)
    requires
        game.wf(),
        game.can_tick(dt),
    ensures
        abs(game.spec_tick_with(keys, dt, left_vy, right_vy).ball.velocity.x as int) == abs(
            game.ball.velocity.x as int,
        ),
{
}

} // verus!
