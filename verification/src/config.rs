//! The measures of the playfield and of what moves on it.

use vstd::prelude::*;
use crate::geometry::{Point, Rect, Velocity};
use crate::units::{HALF_UNIT, UNIT, UNIT_PER_SECOND, half_length, length, speed};

verus! {

/// The side of the field that a paddle guards.
#[derive(Clone, Copy, Debug, PartialEq, Eq, Structural)]
pub enum Side {
    Left,
    Right,
}

/// The top or the bottom wall.
#[derive(Clone, Copy, Debug, PartialEq, Eq, Structural)]
pub enum Edge {
    Top,
    Bottom,
}

/// Everything about a game that stays the same from the first frame to the
/// last. Sizes are in whole playfield units, speeds in whole units per second.
#[derive(Clone, Copy, Debug, PartialEq, Eq, Structural)]
pub struct Config {
    /// Width of the playfield.
    pub width: u32,
    /// Height of the playfield.
    pub height: u32,
    /// Width of a paddle.
    pub paddle_width: u32,
    /// Height of a paddle.
    pub paddle_height: u32,
    /// Distance from a side edge of the field to the centre of the paddle
    /// that guards it.
    pub paddle_inset: u32,
    /// Speed at which a paddle follows its keys.
    pub paddle_speed: u32,
    /// Side of the square that the ball fills.
    pub ball_size: u32,
    /// Horizontal speed of the ball when it is served.
    pub serve_x: i32,
    /// Vertical speed of the ball when it is served.
    pub serve_y: i32,
    /// Largest vertical speed, up or down, that a paddle gives the ball.
    pub rebound_limit: u32,
    /// Half the thickness of the top and bottom walls.
    pub wall_half_thickness: u32,
}

impl Config {
    /// A paddle must fit between the walls.
    pub open spec fn wf(self) -> bool {
        self.paddle_height <= self.height
    }

    /// Whether a paddle fits between the walls.
    pub fn is_valid(&self) -> (ok: bool)
        ensures
            ok == self.wf(),
    {
        self.paddle_height <= self.height
    }

    /// The standard game: a field of 700 by 500, paddles of 10 by 150 set 20
    /// in from the sides and moving at 200, a ball of 25 served to the left
    /// at 100, rebounds of at most 100, walls 6 thick.
    pub open spec fn spec_standard() -> Config {
        Config {
            width: 700,
            height: 500,
            paddle_width: 10,
            paddle_height: 150,
            paddle_inset: 20,
            paddle_speed: 200,
            ball_size: 25,
            serve_x: -100i32,
            serve_y: 0,
            rebound_limit: 100,
            wall_half_thickness: 3,
        }
    }

    /// The standard game.
    pub fn standard() -> (cfg: Config)
        ensures
            cfg == Config::spec_standard(),
            cfg.wf(),
    {
        Config {
            width: 700,
            height: 500,
            paddle_width: 10,
            paddle_height: 150,
            paddle_inset: 20,
            paddle_speed: 200,
            ball_size: 25,
            serve_x: -100,
            serve_y: 0,
            rebound_limit: 100,
            wall_half_thickness: 3,
        }
    }

    /// Half the width of the field: the `x` of its right edge.
    pub open spec fn spec_half_width(self) -> int {
        self.width * HALF_UNIT
    }

    /// Half the width of the field.
    pub fn half_width(&self) -> (l: i64)
        ensures
            l == self.spec_half_width(),
    {
        half_length(self.width)
    }

    /// Half the height of the field: the `y` of its top wall.
    pub open spec fn spec_half_height(self) -> int {
        self.height * HALF_UNIT
    }

    /// Half the height of the field.
    pub fn half_height(&self) -> (l: i64)
        ensures
            l == self.spec_half_height(),
    {
        half_length(self.height)
    }

    /// Half the side of the ball.
    pub open spec fn spec_ball_radius(self) -> int {
        self.ball_size * HALF_UNIT
    }

    /// Half the side of the ball.
    pub fn ball_radius(&self) -> (l: i64)
        ensures
            l == self.spec_ball_radius(),
    {
        half_length(self.ball_size)
    }

    /// How far the centre of a paddle may be from the middle of the field:
    /// half the height of the field less half the height of the paddle.
    pub open spec fn spec_paddle_reach(self) -> int {
        self.height * HALF_UNIT - self.paddle_height * HALF_UNIT
    }

    /// How far the centre of a paddle may be from the middle of the field.
    pub fn paddle_reach(&self) -> (l: i64)
        ensures
            l == self.spec_paddle_reach(),
            self.wf() ==> l >= 0,
    {
        half_length(self.height) - half_length(self.paddle_height)
    }

    /// The speed of a paddle.
    pub open spec fn spec_paddle_velocity(self) -> int {
        self.paddle_speed * UNIT_PER_SECOND
    }

    /// The speed of a paddle.
    pub fn paddle_velocity(&self) -> (s: i64)
        ensures
            s == self.spec_paddle_velocity(),
            s >= 0,
    {
        let n: i64 = self.paddle_speed as i64;
        n * UNIT_PER_SECOND
    }

    /// The largest vertical speed that a paddle gives the ball.
    pub open spec fn spec_rebound_bound(self) -> int {
        self.rebound_limit * UNIT_PER_SECOND
    }

    /// The largest vertical speed that a paddle gives the ball.
    pub fn rebound_bound(&self) -> (s: i64)
        ensures
            s == self.spec_rebound_bound(),
            s >= 0,
    {
        let n: i64 = self.rebound_limit as i64;
        n * UNIT_PER_SECOND
    }

    /// Whether a paddle may give the ball the vertical speed `vy`.
    pub open spec fn allows_rebound(self, vy: int) -> bool {
        -self.spec_rebound_bound() <= vy <= self.spec_rebound_bound()
    }

    /// The velocity at which the ball is served.
    pub open spec fn spec_serve(self) -> Velocity {
        Velocity {
            x: (self.serve_x * UNIT_PER_SECOND) as i64,
            y: (self.serve_y * UNIT_PER_SECOND) as i64,
        }
    }

    /// The velocity at which the ball is served.
    pub fn serve(&self) -> (v: Velocity)
        ensures
            v == self.spec_serve(),
            v.x == self.serve_x * UNIT_PER_SECOND,
            v.y == self.serve_y * UNIT_PER_SECOND,
            v.reversible(),
    {
        Velocity { x: speed(self.serve_x), y: speed(self.serve_y) }
    }

    /// The `x` of the slot in which the paddle of `side` moves: the inset
    /// away from its side edge, towards the middle.
    pub open spec fn spec_slot_x(self, side: Side) -> int {
        match side {
            Side::Left => -(self.width * HALF_UNIT) + self.paddle_inset * UNIT,
            Side::Right => self.width * HALF_UNIT - self.paddle_inset * UNIT,
        }
    }

    /// The `x` of the slot in which the paddle of `side` moves.
    pub fn slot_x(&self, side: Side) -> (x: i64)
        ensures
            x == self.spec_slot_x(side),
    {
        match side {
            Side::Left => -half_length(self.width) + length(self.paddle_inset),
            Side::Right => half_length(self.width) - length(self.paddle_inset),
        }
    }

    /// The box that a paddle fills when its centre is at `center`.
    pub open spec fn spec_paddle_box(self, center: Point) -> Rect {
        Rect {
            center,
            half_width: (self.paddle_width * HALF_UNIT) as i64,
            half_height: (self.paddle_height * HALF_UNIT) as i64,
        }
    }

    /// The box that a paddle fills when its centre is at `center`.
    pub fn paddle_box(&self, center: Point) -> (r: Rect)
        ensures
            r == self.spec_paddle_box(center),
            r.center == center,
            r.half_width == self.paddle_width * HALF_UNIT,
            r.half_height == self.paddle_height * HALF_UNIT,
    {
        Rect {
            center,
            half_width: half_length(self.paddle_width),
            half_height: half_length(self.paddle_height),
        }
    }

    /// The box that the ball fills when its centre is at `center`.
    pub open spec fn spec_ball_box(self, center: Point) -> Rect {
        Rect {
            center,
            half_width: (self.ball_size * HALF_UNIT) as i64,
            half_height: (self.ball_size * HALF_UNIT) as i64,
        }
    }

    /// The box that the ball fills when its centre is at `center`.
    pub fn ball_box(&self, center: Point) -> (r: Rect)
        ensures
            r == self.spec_ball_box(center),
            r.center == center,
            r.half_width == self.spec_ball_radius(),
            r.half_height == self.spec_ball_radius(),
    {
        Rect {
            center,
            half_width: half_length(self.ball_size),
            half_height: half_length(self.ball_size),
        }
    }

    /// The box of the whole playfield, centred on the origin.
    pub open spec fn spec_field(self) -> Rect {
        Rect {
            center: Point { x: 0, y: 0 },
            half_width: (self.width * HALF_UNIT) as i64,
            half_height: (self.height * HALF_UNIT) as i64,
        }
    }

    /// The box of the whole playfield.
    pub fn field(&self) -> (r: Rect)
        ensures
            r == self.spec_field(),
            r.left() == -self.spec_half_width(),
            r.right() == self.spec_half_width(),
            r.bottom() == -self.spec_half_height(),
            r.top() == self.spec_half_height(),
    {
        Rect {
            center: Point { x: 0, y: 0 },
            half_width: half_length(self.width),
            half_height: half_length(self.height),
        }
    }

    /// The box of a wall: as wide as the field, centred on the edge that it
    /// closes.
    pub open spec fn spec_wall(self, edge: Edge) -> Rect {
        Rect {
            center: Point {
                x: 0,
                y: match edge {
                    Edge::Top => (self.height * HALF_UNIT) as i64,
                    Edge::Bottom => (-(self.height * HALF_UNIT)) as i64,
                },
            },
            half_width: (self.width * HALF_UNIT) as i64,
            half_height: (self.wall_half_thickness * UNIT) as i64,
        }
    }

    /// The box of a wall.
    pub fn wall(&self, edge: Edge) -> (r: Rect)
        ensures
            r == self.spec_wall(edge),
            r.center.x == 0,
            edge == Edge::Top ==> r.center.y == self.spec_half_height(),
            edge == Edge::Bottom ==> r.center.y == -self.spec_half_height(),
            r.half_width == self.spec_half_width(),
            r.half_height == self.wall_half_thickness * UNIT,
    {
        let y: i64 = match edge {
            Edge::Top => half_length(self.height),
            Edge::Bottom => -half_length(self.height),
        };
        Rect {
            center: Point { x: 0, y },
            half_width: half_length(self.width),
            half_height: length(self.wall_half_thickness),
        }
    }
}

} // verus!
