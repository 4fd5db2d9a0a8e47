//! The base spatial unit of the game: a positioned, sized, tinted rectangle.
//!
//! Paddle and bricks are `GameObject`s; the ball wraps one.  Coordinates are
//! milli-pixels with the origin at the top-left corner and y growing
//! downward.

use vstd::prelude::*;

use crate::arith::{DIM_LIMIT, POS_LIMIT, VEL_LIMIT};

verus! {

/// A two-dimensional vector on the milli-pixel grid.
#[derive(Clone, Copy, PartialEq, Eq, Structural, Debug)]
pub struct Vec2 {
    pub x: i64,
    pub y: i64,
}

impl Vec2 {
    /// The squared euclidean norm.
    pub open spec fn norm2(self) -> int {
        self.x * self.x + self.y * self.y
    }
}

/// A `Vec2` built from mathematical integers (which must be in range).
pub open spec fn vec2(x: int, y: int) -> Vec2 {
    Vec2 { x: x as i64, y: y as i64 }
}

/// An RGB tint; each channel in thousandths of full intensity (0 to 1000).
#[derive(Clone, Copy, PartialEq, Eq, Structural, Debug)]
pub struct Color {
    pub r: i64,
    pub g: i64,
    pub b: i64,
}

/// One textured rectangle for the rendering layer to draw: everything the
/// renderer needs to know about an entity, and nothing else.
#[derive(Clone, Copy, PartialEq, Eq, Structural, Debug)]
pub struct DrawCommand {
    pub sprite: usize,
    pub position: Vec2,
    pub size: Vec2,
    pub color: Color,
}

/// A positioned, sized game object (a brick or the paddle).
#[derive(Clone, Copy, PartialEq, Eq, Structural, Debug)]
pub struct GameObject {
    /// Top-left corner, in milli-pixels.
    pub position: Vec2,
    /// Width and height, in milli-pixels; both positive.
    pub size: Vec2,
    /// Velocity in milli-pixels per second; zero for bricks and the paddle.
    pub velocity: Vec2,
    /// Handle into the texture table owned by the rendering layer.
    pub sprite: usize,
    /// Cosmetic tint.
    pub color: Color,
    /// An indestructible brick: it blocks the ball but never breaks.
    pub is_solid: bool,
    /// Set once a breakable brick has been hit; destroyed bricks are skipped
    /// by collision and rendering but keep their slot.
    pub destroyed: bool,
}

impl GameObject {
    /// The tint channels are within the unit range.
    pub open spec fn color_wf(self) -> bool {
        &&& 0 <= self.color.r <= 1000
        &&& 0 <= self.color.g <= 1000
        &&& 0 <= self.color.b <= 1000
    }

    /// Geometric sanity: sizes positive and bounded, position and velocity
    /// bounded, so that frame arithmetic cannot overflow.
    pub open spec fn wf(self) -> bool {
        &&& -POS_LIMIT <= self.position.x <= POS_LIMIT
        &&& -POS_LIMIT <= self.position.y <= POS_LIMIT
        &&& 1 <= self.size.x <= DIM_LIMIT
        &&& 1 <= self.size.y <= DIM_LIMIT
        &&& -VEL_LIMIT <= self.velocity.x <= VEL_LIMIT
        &&& -VEL_LIMIT <= self.velocity.y <= VEL_LIMIT
    }

    /// A brick's well-formedness: it lies inside the level region, so its
    /// coordinates are bounded by the dimension limit rather than only by
    /// the looser position limit.
    pub open spec fn brick_wf(self) -> bool {
        &&& self.wf()
        &&& 0 <= self.position.x
        &&& 0 <= self.position.y
        &&& self.position.x + self.size.x <= DIM_LIMIT
        &&& self.position.y + self.size.y <= DIM_LIMIT
    }

    /// What drawing this object means: its sprite at its position and
    /// size, under its tint.
    pub open spec fn draw_of(self) -> DrawCommand {
        DrawCommand { sprite: self.sprite, position: self.position, size: self.size, color: self.color }
    }

    /// The draw command for this object.
    pub fn draw(&self) -> (c: DrawCommand)
        ensures
            c == self.draw_of(),
    {
        DrawCommand {
            sprite: self.sprite,
            position: self.position,
            size: self.size,
            color: self.color,
        }
    }

    /// A fresh object: not solid, not destroyed.
    pub fn new(position: Vec2, size: Vec2, velocity: Vec2, sprite: usize, color: Color) -> (r:
        GameObject)
        ensures
            r == (GameObject {
                position,
                size,
                velocity,
                sprite,
                color,
                is_solid: false,
                destroyed: false,
            }),
    {
        GameObject { position, size, velocity, sprite, color, is_solid: false, destroyed: false }
    }
}

} // verus!
