//! The paddle controller: a paddle follows its two keys up and down its slot
//! and never leaves the field.

use vstd::prelude::*;
use crate::config::{Config, Side};
use crate::geometry::{Point, Rect};
use crate::units::{lemma_travel_bounded, lemma_travel_sign, travel, UNIT};

verus! {

/// A key that a paddle can be bound to.
#[derive(Clone, Copy, Debug, PartialEq, Eq, Structural)]
pub enum Key {
    W,
    S,
    ArrowUp,
    ArrowDown,
}

/// The two keys of one paddle. They are chosen when the paddle is made and
/// stay with it.
#[derive(Clone, Copy, Debug, PartialEq, Eq, Structural)]
pub struct Bindings {
    pub up: Key,
    pub down: Key,
}

/// Which keys are held down during a frame.
#[derive(Clone, Copy, Debug, PartialEq, Eq, Structural)]
pub struct Keyboard {
    pub w: bool,
    pub s: bool,
    pub arrow_up: bool,
    pub arrow_down: bool,
}

impl Keyboard {
    /// Whether `key` is held down.
    pub open spec fn spec_pressed(self, key: Key) -> bool {
        match key {
            Key::W => self.w,
            Key::S => self.s,
            Key::ArrowUp => self.arrow_up,
            Key::ArrowDown => self.arrow_down,
        }
    }

    /// Whether `key` is held down.
    pub fn pressed(&self, key: Key) -> (down: bool)
        ensures
            down == self.spec_pressed(key),
    {
        match key {
            Key::W => self.w,
            Key::S => self.s,
            Key::ArrowUp => self.arrow_up,
            Key::ArrowDown => self.arrow_down,
        }
    }
}

impl Side {
    /// The keys of the player on this side: `W` and `S` on the left, the
    /// arrows on the right.
    pub open spec fn spec_bindings(self) -> Bindings {
        match self {
            Side::Left => Bindings { up: Key::W, down: Key::S },
            Side::Right => Bindings { up: Key::ArrowUp, down: Key::ArrowDown },
        }
    }

    /// The keys of the player on this side.
    pub fn bindings(self) -> (b: Bindings)
        ensures
            b == self.spec_bindings(),
    {
        match self {
            Side::Left => Bindings { up: Key::W, down: Key::S },
            Side::Right => Bindings { up: Key::ArrowUp, down: Key::ArrowDown },
        }
    }
}

/// The height `y` brought back into the span that the centre of a paddle may
/// be in: heights below the span become its lower end, heights above it its
/// upper end.
pub open spec fn clamp_height(cfg: Config, y: int) -> int {
    if y < -cfg.spec_paddle_reach() {
        -cfg.spec_paddle_reach()
    } else if y > cfg.spec_paddle_reach() {
        cfg.spec_paddle_reach()
    } else {
        y
    }
}

/// The height of a paddle after a frame of `dt` that began at height `y`:
/// up by the way the paddle travels if `up` is held, down by the same way if
/// `down` is held, both if both are, and then brought back into the field.
pub open spec fn steer_height(cfg: Config, y: int, up: bool, down: bool, dt: u64) -> int {
    let way = travel(cfg.spec_paddle_velocity(), dt as int);
    let raised = if up { y + way } else { y };
    let lowered = if down { raised - way } else { raised };
    clamp_height(cfg, lowered)
}

/// A paddle: where its centre is, and the keys that move it.
#[derive(Clone, Copy, Debug, PartialEq, Eq, Structural)]
pub struct Paddle {
    pub position: Point,
    pub bindings: Bindings,
}

impl Paddle {
    /// The paddle is wholly between the walls.
    pub open spec fn in_field(self, cfg: Config) -> bool {
        -cfg.spec_paddle_reach() <= self.position.y <= cfg.spec_paddle_reach()
    }

    /// Whether the paddle is wholly between the walls.
    pub fn is_in_field(&self, cfg: &Config) -> (ok: bool)
        ensures
            ok == self.in_field(*cfg),
    {
        let reach: i64 = cfg.paddle_reach();
        -reach <= self.position.y && self.position.y <= reach
    }

    /// The paddle of `side` as the game begins: in its slot, at mid-height,
    /// bound to the keys of its side.
    pub fn spawn(cfg: &Config, side: Side) -> (paddle: Paddle)
        ensures
            paddle.position.x == cfg.spec_slot_x(side),
            paddle.position.y == 0,
            paddle.bindings == side.spec_bindings(),
            cfg.wf() ==> paddle.in_field(*cfg),
    {
        Paddle { position: Point { x: cfg.slot_x(side), y: 0 }, bindings: side.bindings() }
    }

    /// The box that the paddle fills.
    pub open spec fn spec_bounding_box(self, cfg: Config) -> Rect {
        cfg.spec_paddle_box(self.position)
    }

    /// The box that the paddle fills.
    pub fn bounding_box(&self, cfg: &Config) -> (r: Rect)
        ensures
            r == self.spec_bounding_box(*cfg),
    {
        cfg.paddle_box(self.position)
    }

    /// The paddle after `restrain`.
    pub open spec fn spec_restrain(self, cfg: Config) -> Paddle {
        Paddle {
            position: Point {
                x: self.position.x,
                y: clamp_height(cfg, self.position.y as int) as i64,
            },
            bindings: self.bindings,
        }
    }

    /// The clamp step: brings the paddle back between the walls, wherever it
    /// was, and leaves it alone if it is between them.
    pub fn restrain(&mut self, cfg: &Config)
        requires
            cfg.wf(),
        ensures
            *final(self) == old(self).spec_restrain(*cfg),
            final(self).position.y == clamp_height(*cfg, old(self).position.y as int),
            final(self).in_field(*cfg),
    {
        let reach: i64 = cfg.paddle_reach();
        if self.position.y < -reach {
            self.position.y = -reach;
        } else if self.position.y > reach {
            self.position.y = reach;
        }
    }

    /// The paddle after `steer`.
    pub open spec fn spec_steer(self, cfg: Config, keys: Keyboard, dt: u64) -> Paddle {
        Paddle {
            position: Point {
                x: self.position.x,
                y: steer_height(
                    cfg,
                    self.position.y as int,
                    keys.spec_pressed(self.bindings.up),
                    keys.spec_pressed(self.bindings.down),
                    dt,
                ) as i64,
            },
            bindings: self.bindings,
        }
    }

    /// One frame of the paddle controller: moves the paddle by the way it
    /// travels in `dt`, up if its upper key is held and down if its lower key
    /// is, and then brings it back between the walls. Held together, the two
    /// keys cancel.
    pub fn steer(&mut self, cfg: &Config, keys: &Keyboard, dt: u64)
        requires
            cfg.wf(),
        ensures
            *final(self) == old(self).spec_steer(*cfg, *keys, dt),
            final(self).position.y == steer_height(
                *cfg,
                old(self).position.y as int,
                keys.spec_pressed(old(self).bindings.up),
                keys.spec_pressed(old(self).bindings.down),
                dt,
            ),
            final(self).position.x == old(self).position.x,
            final(self).bindings == old(self).bindings,
            final(self).in_field(*cfg),
    {
        let velocity: i64 = cfg.paddle_velocity();
        proof {
            lemma_travel_bounded(velocity, dt);
        }
        let way: i128 = velocity as i128 * dt as i128;
        let mut y: i128 = self.position.y as i128;
        if keys.pressed(self.bindings.up) {
            y = y + way;
        }
        if keys.pressed(self.bindings.down) {
            y = y - way;
        }
        let reach: i128 = cfg.paddle_reach() as i128;
        if y < -reach {
            y = -reach;
        } else if y > reach {
            y = reach;
        }
        self.position.y = y as i64;
    }
}

/// Whatever the height, the clamp step brings it into the span of the
/// paddle.
pub proof fn lemma_clamp_in_span(cfg: Config, y: int)
    requires
        cfg.wf(),
    ensures
        -cfg.spec_paddle_reach() <= clamp_height(cfg, y) <= cfg.spec_paddle_reach(),
        -cfg.spec_paddle_reach() <= y <= cfg.spec_paddle_reach() ==> clamp_height(cfg, y) == y,
{
}

/// In the standard game a paddle reaches 175 either way from the middle of
/// the field. Every height is clamped into that span and every frame of the
/// controller ends in it, so no paddle is ever further than 215 from the
/// middle.
pub proof fn lemma_standard_span(y: int, up: bool, down: bool, dt: u64)
    ensures
        Config::spec_standard().spec_paddle_reach() == 175 * UNIT,
        -175 * UNIT <= clamp_height(Config::spec_standard(), y) <= 175 * UNIT,
        -175 * UNIT <= steer_height(Config::spec_standard(), y, up, down, dt) <= 175 * UNIT,
        -215 * UNIT <= clamp_height(Config::spec_standard(), y) <= 215 * UNIT,
        -215 * UNIT <= steer_height(Config::spec_standard(), y, up, down, dt) <= 215 * UNIT,
{
}

/// The clamp step is idempotent: a second one changes nothing.
pub proof fn lemma_clamp_idempotent(cfg: Config, y: int)
    requires
        cfg.wf(),
    ensures
        clamp_height(cfg, clamp_height(cfg, y)) == clamp_height(cfg, y),
{
}

/// Restraining a paddle twice is restraining it once.
pub proof fn lemma_restrain_idempotent(cfg: Config, paddle: Paddle)
    requires
        cfg.wf(),
    ensures
        paddle.spec_restrain(cfg).spec_restrain(cfg) == paddle.spec_restrain(cfg),
{
}

/// A frame of the controller ends with a clamp step, so a clamp step after
/// it changes nothing.
pub proof fn lemma_steer_then_restrain(cfg: Config, paddle: Paddle, keys: Keyboard, dt: u64)
    requires
        cfg.wf(),
    ensures
        paddle.spec_steer(cfg, keys, dt).spec_restrain(cfg) == paddle.spec_steer(cfg, keys, dt),
{
}

/// With no key held, or with both, a paddle in the field stays where it is.
pub proof fn lemma_balanced_keys_hold(cfg: Config, y: int, dt: u64)
    requires
        cfg.wf(),
        -cfg.spec_paddle_reach() <= y <= cfg.spec_paddle_reach(),
    ensures
        steer_height(cfg, y, false, false, dt) == y,
        steer_height(cfg, y, true, true, dt) == y,
{
}

/// A single key never moves a paddle in the field the other way: with only
/// "up" held it ends no lower than it began, with only "down" no higher.
pub proof fn lemma_single_key_direction(cfg: Config, y: int, dt: u64)
    requires
        cfg.wf(),
        -cfg.spec_paddle_reach() <= y <= cfg.spec_paddle_reach(),
    ensures
        steer_height(cfg, y, true, false, dt) >= y,
        steer_height(cfg, y, false, true, dt) <= y,
        steer_height(cfg, y, true, false, dt) == y + travel(cfg.spec_paddle_velocity(), dt as int)
            || steer_height(cfg, y, true, false, dt) == cfg.spec_paddle_reach(),
        steer_height(cfg, y, false, true, dt) == y - travel(cfg.spec_paddle_velocity(), dt as int)
            || steer_height(cfg, y, false, true, dt) == -cfg.spec_paddle_reach(),
{
    lemma_travel_sign(cfg.spec_paddle_velocity(), dt as int);
}

/// When time passes and the paddle has a speed, a single key moves a paddle
/// in the field strictly, or holds it at the end of its span: with only "up"
/// held the paddle rises or stays at the top, with only "down" it sinks or
/// stays at the bottom.
pub proof fn lemma_single_key_moves(cfg: Config, y: int, dt: u64)
    requires
        cfg.wf(),
        -cfg.spec_paddle_reach() <= y <= cfg.spec_paddle_reach(),
        dt > 0,
        cfg.paddle_speed > 0,
    ensures
        steer_height(cfg, y, true, false, dt) > y
            || (steer_height(cfg, y, true, false, dt) == y && y == cfg.spec_paddle_reach()),
        steer_height(cfg, y, false, true, dt) < y
            || (steer_height(cfg, y, false, true, dt) == y && y == -cfg.spec_paddle_reach()),
{
    lemma_travel_sign(cfg.spec_paddle_velocity(), dt as int);
}

} // verus!
