//! What there is to draw: each thing in the game as a painted box. Drawing
//! itself is left to whoever shows the game.

use vstd::prelude::*;
use crate::config::Side;
use crate::game::Game;
use crate::geometry::Rect;

verus! {

/// The two colours of the game.
#[derive(Clone, Copy, Debug, PartialEq, Eq, Structural)]
pub enum Paint {
    Black,
    White,
}

/// A box to draw, the colour to draw it in, and whether a picture is laid
/// over it.
#[derive(Clone, Copy, Debug, PartialEq, Eq, Structural)]
pub struct Sprite {
    pub area: Rect,
    pub paint: Paint,
    pub textured: bool,
}

impl Game {
    /// The background: the whole field, in plain black.
    pub fn backdrop(&self) -> (s: Sprite)
        ensures
            s.area == self.config.spec_field(),
            s.paint == Paint::Black,
            !s.textured,
    {
        Sprite { area: self.config.field(), paint: Paint::Black, textured: false }
    }

    /// The paddle of `side`, in plain white, where it now is.
    pub fn paddle_sprite(&self, side: Side) -> (s: Sprite)
        ensures
            s.area == self.spec_paddle(side).spec_bounding_box(self.config),
            s.paint == Paint::White,
            !s.textured,
    {
        Sprite {
            area: self.paddle(side).bounding_box(&self.config),
            paint: Paint::White,
            textured: false,
        }
    }

    /// The ball, where it now is: its picture, on white.
    pub fn ball_sprite(&self) -> (s: Sprite)
        ensures
            s.area == self.ball.spec_bounding_box(self.config),
            s.paint == Paint::White,
            s.textured,
    {
        Sprite { area: self.ball.bounding_box(&self.config), paint: Paint::White, textured: true }
    }
}

} // verus!
