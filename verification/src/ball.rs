//! The ball simulator: the ball moves along its velocity, turns back at the
//! top and bottom walls, and leaves a paddle that it overlaps at a freshly
//! drawn vertical speed.

use vstd::prelude::*;
use vstd::math::abs;
use rand::rngs::StdRng;
use crate::chance::draw_between;
use crate::config::Config;
use crate::geometry::{Point, Rect, Velocity};
use crate::paddle::Paddle;
use crate::units::{lemma_travel_adds, lemma_travel_bounded, travel, UNIT_PER_SECOND};

verus! {

/// The ball: where its centre is, and how fast it moves.
#[derive(Clone, Copy, Debug, PartialEq, Eq, Structural)]
pub struct Ball {
    pub position: Point,
    pub velocity: Velocity,
}

impl Ball {
    /// The velocity of a ball can always be turned round.
    pub open spec fn wf(self) -> bool {
        self.velocity.reversible()
    }

    /// Whether the velocity of the ball can be turned round.
    pub fn is_valid(&self) -> (ok: bool)
        ensures
            ok == self.wf(),
    {
        self.velocity.is_reversible()
    }

    /// The ball as the game begins: in the middle of the field, moving at
    /// the serve velocity.
    pub fn spawn(cfg: &Config) -> (ball: Ball)
        ensures
            ball.position == (Point { x: 0, y: 0 }),
            ball.velocity == cfg.spec_serve(),
            ball.wf(),
    {
        Ball { position: Point { x: 0, y: 0 }, velocity: cfg.serve() }
    }

    /// The box that the ball fills.
    pub open spec fn spec_bounding_box(self, cfg: Config) -> Rect {
        cfg.spec_ball_box(self.position)
    }

    /// The box that the ball fills.
    pub fn bounding_box(&self, cfg: &Config) -> (r: Rect)
        ensures
            r == self.spec_bounding_box(*cfg),
    {
        cfg.ball_box(self.position)
    }

    /// Where the ball is, along `x`, after it has moved for `dt`.
    pub open spec fn x_after(self, dt: u64) -> int {
        self.position.x + travel(self.velocity.x as int, dt as int)
    }

    /// Where the ball is, along `y`, after it has moved for `dt`.
    pub open spec fn y_after(self, dt: u64) -> int {
        self.position.y + travel(self.velocity.y as int, dt as int)
    }

    /// The place that the ball reaches in `dt` is a place on the grid.
    pub open spec fn can_integrate(self, dt: u64) -> bool {
        &&& i64::MIN <= self.x_after(dt) <= i64::MAX
        &&& i64::MIN <= self.y_after(dt) <= i64::MAX
    }

    /// Whether the place that the ball reaches in `dt` is a place on the
    /// grid.
    pub fn fits(&self, dt: u64) -> (ok: bool)
        ensures
            ok == self.can_integrate(dt),
    {
        proof {
            lemma_travel_bounded(self.velocity.x, dt);
            lemma_travel_bounded(self.velocity.y, dt);
        }
        let x: i128 = self.position.x as i128 + self.velocity.x as i128 * dt as i128;
        let y: i128 = self.position.y as i128 + self.velocity.y as i128 * dt as i128;
        i64::MIN as i128 <= x && x <= i64::MAX as i128 && i64::MIN as i128 <= y && y
            <= i64::MAX as i128
    }

    /// The ball after `integrate`.
    pub open spec fn spec_integrate(self, dt: u64) -> Ball {
        Ball {
            position: Point { x: self.x_after(dt) as i64, y: self.y_after(dt) as i64 },
            velocity: self.velocity,
        }
    }

    /// Integration: moves the ball along its velocity for `dt`, in a straight
    /// line and without rounding. The velocity stays as it is.
    pub fn integrate(&mut self, dt: u64)
        requires
            old(self).can_integrate(dt),
        ensures
            *final(self) == old(self).spec_integrate(dt),
            final(self).position.x == old(self).position.x + travel(
                old(self).velocity.x as int,
                dt as int,
            ),
            final(self).position.y == old(self).position.y + travel(
                old(self).velocity.y as int,
                dt as int,
            ),
            final(self).velocity == old(self).velocity,
    {
        proof {
            lemma_travel_bounded(self.velocity.x, dt);
            lemma_travel_bounded(self.velocity.y, dt);
        }
        let x: i128 = self.position.x as i128 + self.velocity.x as i128 * dt as i128;
        let y: i128 = self.position.y as i128 + self.velocity.y as i128 * dt as i128;
        self.position.x = x as i64;
        self.position.y = y as i64;
    }

    /// The ball reaches past the top or the bottom wall: its distance from
    /// the middle line, with its radius added, is more than half the height
    /// of the field.
    pub open spec fn beyond_wall(self, cfg: Config) -> bool {
        abs(self.position.y as int) + cfg.spec_ball_radius() > cfg.spec_half_height()
    }

    /// Whether the ball reaches past the top or the bottom wall.
    pub fn is_beyond_wall(&self, cfg: &Config) -> (beyond: bool)
        ensures
            beyond == self.beyond_wall(*cfg),
    {
        let y: i128 = self.position.y as i128;
        let distance: i128 = if y < 0 { -y } else { y };
        distance + cfg.ball_radius() as i128 > cfg.half_height() as i128
    }

    /// The ball after `reflect_off_walls`.
    pub open spec fn spec_reflect_off_walls(self, cfg: Config) -> Ball {
        if self.beyond_wall(cfg) {
            Ball {
                position: self.position,
                velocity: Velocity { x: self.velocity.x, y: (-self.velocity.y) as i64 },
            }
        } else {
            self
        }
    }

    /// Wall reflection: if the ball reaches past a wall, its vertical speed
    /// changes sign and keeps its size. The ball is not moved back into the
    /// field, and its horizontal speed stays. Returns whether the ball was
    /// reflected.
    pub fn reflect_off_walls(&mut self, cfg: &Config) -> (reflected: bool)
        requires
            old(self).wf(),
        ensures
            reflected == old(self).beyond_wall(*cfg),
            *final(self) == old(self).spec_reflect_off_walls(*cfg),
            final(self).position == old(self).position,
            final(self).velocity.x == old(self).velocity.x,
            reflected ==> final(self).velocity.y == -old(self).velocity.y,
            !reflected ==> final(self).velocity.y == old(self).velocity.y,
            final(self).wf(),
    {
        let beyond: bool = self.is_beyond_wall(cfg);
        if beyond {
            self.velocity.y = -self.velocity.y;
        }
        beyond
    }

    /// The box of the ball and the box of `paddle` overlap.
    pub open spec fn spec_overlaps(self, cfg: Config, paddle: Paddle) -> bool {
        self.spec_bounding_box(cfg).spec_overlaps(paddle.spec_bounding_box(cfg))
    }

    /// Whether the box of the ball and the box of `paddle` overlap.
    pub fn overlaps(&self, cfg: &Config, paddle: &Paddle) -> (hit: bool)
        ensures
            hit == self.spec_overlaps(*cfg, *paddle),
    {
        let ball_box: Rect = self.bounding_box(cfg);
        let paddle_box: Rect = paddle.bounding_box(cfg);
        ball_box.overlaps(&paddle_box)
    }

    /// The ball after `rebound`.
    pub open spec fn spec_rebound(self, vy: i64) -> Ball {
        Ball {
            position: self.position,
            velocity: Velocity { x: (-self.velocity.x) as i64, y: vy },
        }
    }

    /// The answer of a paddle: the velocity is turned round, and then its
    /// vertical part is replaced by `vy`, the speed that was drawn. So the
    /// horizontal speed changes sign and keeps its size, and nothing is left
    /// of the vertical speed that the ball came with.
    pub fn rebound(&mut self, cfg: &Config, vy: i64)
        requires
            old(self).wf(),
            cfg.allows_rebound(vy as int),
        ensures
            *final(self) == old(self).spec_rebound(vy),
            final(self).position == old(self).position,
            final(self).velocity.x == -old(self).velocity.x,
            final(self).velocity.y == vy,
            cfg.allows_rebound(final(self).velocity.y as int),
            final(self).wf(),
    {
        self.velocity.x = -self.velocity.x;
        self.velocity.y = vy;
    }

    /// The ball after `bounce_with`.
    pub open spec fn spec_bounce_with(self, cfg: Config, paddle: Paddle, vy: i64) -> Ball {
        if self.spec_overlaps(cfg, paddle) {
            self.spec_rebound(vy)
        } else {
            self
        }
    }

    /// Paddle reflection with the draw made beforehand: if the ball overlaps
    /// `paddle` it rebounds at the vertical speed `vy`, else it is left as it
    /// is. Returns whether it rebounded.
    pub fn bounce_with(&mut self, cfg: &Config, paddle: &Paddle, vy: i64) -> (hit: bool)
        requires
            old(self).wf(),
            cfg.allows_rebound(vy as int),
        ensures
            hit == old(self).spec_overlaps(*cfg, *paddle),
            *final(self) == old(self).spec_bounce_with(*cfg, *paddle, vy),
            final(self).wf(),
    {
        let hit: bool = self.overlaps(cfg, paddle);
        if hit {
            self.rebound(cfg, vy);
        }
        hit
    }

    /// Paddle reflection: if the ball overlaps `paddle`, a vertical speed is
    /// drawn from `rng`, between the rebound limit downwards and the rebound
    /// limit upwards, and the ball rebounds at it. A ball that overlaps no
    /// paddle draws nothing and is left as it is. Returns whether the ball
    /// rebounded.
    ///
    /// Whatever is drawn, the horizontal speed has changed sign and kept its
    /// size, and the vertical speed is within the rebound limit, whatever it
    /// was before.
    pub fn bounce(&mut self, cfg: &Config, paddle: &Paddle, rng: &mut StdRng) -> (hit: bool)
        requires
            old(self).wf(),
        ensures
            hit == old(self).spec_overlaps(*cfg, *paddle),
            !hit ==> *final(self) == *old(self),
            hit ==> *final(self) == old(self).spec_rebound(final(self).velocity.y),
            hit ==> final(self).velocity.x == -old(self).velocity.x,
            hit ==> cfg.allows_rebound(final(self).velocity.y as int),
            final(self).position == old(self).position,
            final(self).wf(),
    {
        let hit: bool = self.overlaps(cfg, paddle);
        if hit {
            let bound: i64 = cfg.rebound_bound();
            let vy: i64 = draw_between(rng, -bound, bound);
            self.rebound(cfg, vy);
        }
        hit
    }
}

/// Integration is linear motion: two steps one after the other bring the
/// ball where one step of their joint length brings it.
pub proof fn lemma_integration_adds(ball: Ball, dt1: u64, dt2: u64)
    requires
        dt1 + dt2 <= u64::MAX,
        ball.can_integrate(dt1),
        ball.spec_integrate(dt1).can_integrate(dt2),
    ensures
        ball.can_integrate((dt1 + dt2) as u64),
        ball.spec_integrate(dt1).spec_integrate(dt2) == ball.spec_integrate((dt1 + dt2) as u64),
{
    lemma_travel_adds(ball.velocity.x as int, dt1 as int, dt2 as int);
    lemma_travel_adds(ball.velocity.y as int, dt1 as int, dt2 as int);
}

/// A ball that does not move in time stays where it is.
pub proof fn lemma_integration_of_no_time(ball: Ball)
    ensures
        ball.can_integrate(0),
        ball.spec_integrate(0) == ball,
{
    assert(travel(ball.velocity.x as int, 0) == 0);
    assert(travel(ball.velocity.y as int, 0) == 0);
}

/// Two wall reflections in a row give the ball its velocity back.
pub proof fn lemma_wall_reflection_undoes_itself(cfg: Config, ball: Ball)
    requires
        ball.wf(),
    ensures
        ball.spec_reflect_off_walls(cfg).spec_reflect_off_walls(cfg) == ball,
{
}

/// After a rebound the horizontal speed is the opposite of what it was, and
/// the vertical speed is the one that was drawn: within the rebound limit if
/// the draw was, whatever the ball came with.
pub proof fn lemma_rebound_forgets_vertical_speed(cfg: Config, a: Ball, b: Ball, vy: i64)
    requires
        a.wf(),
        b.wf(),
        cfg.allows_rebound(vy as int),
        a.position == b.position,
        a.velocity.x == b.velocity.x,
    ensures
        a.spec_rebound(vy) == b.spec_rebound(vy),
        a.spec_rebound(vy).velocity.x == -a.velocity.x,
        cfg.allows_rebound(a.spec_rebound(vy).velocity.y as int),
{
}

/// In the standard game a rebound leaves the ball with a vertical speed
/// between -100 and 100, and with the opposite of its horizontal speed.
pub proof fn lemma_standard_rebound(ball: Ball, vy: i64)
    requires
        ball.wf(),
        Config::spec_standard().allows_rebound(vy as int),
    ensures
        -100 * UNIT_PER_SECOND <= ball.spec_rebound(vy).velocity.y <= 100 * UNIT_PER_SECOND,
        ball.spec_rebound(vy).velocity.x == -ball.velocity.x,
{
}

} // verus!
