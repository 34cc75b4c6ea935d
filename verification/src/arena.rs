//! Arena layout: where the walls, goals, paddles and ball stand.
//!
//! Every length, coordinate and speed is a whole number of quarter pixels
//! (`PIXEL` of them make one pixel), so that the half and quarter pixel
//! offsets of the layout are exact. The origin is the centre of the arena,
//! `x` grows to the right and `y` grows upwards.

use vstd::prelude::*;

verus! {

/// One pixel, in the unit all lengths are counted in.
pub const PIXEL: i32 = 4;

pub const PADDLE_WIDTH: i32 = 20 * PIXEL;

pub const PADDLE_HEIGHT: i32 = 150 * PIXEL;

pub const GAP_BETWEEN_PADDLE_AND_GOAL: i32 = 60 * PIXEL;

/// Paddle speed, per second.
pub const PADDLE_SPEED: i32 = 500 * PIXEL;

pub const BALL_RADIUS: i32 = 10 * PIXEL;

/// Ball speed at the start of a round, per second.
pub const BALL_START_SPEED: i32 = 800 * PIXEL;

pub const WALL_THICKNESS: i32 = 10 * PIXEL;

pub const LEFT_WALL: i32 = -450 * PIXEL;

pub const RIGHT_WALL: i32 = 450 * PIXEL;

pub const BOTTOM_WALL: i32 = -300 * PIXEL;

pub const TOP_WALL: i32 = 300 * PIXEL;

pub const GOAL_THICKNESS: i32 = 3 * PIXEL;

/// A point, an extent or a velocity in the plane.
#[derive(Clone, Copy, Debug, PartialEq, Eq, Structural)]
pub struct Vector {
    pub x: i32,
    pub y: i32,
}

/// The two horizontal walls.
#[derive(Clone, Copy, Debug, PartialEq, Eq, Structural)]
pub enum WallLocation {
    Bottom,
    Top,
}

impl WallLocation {
    /// Centre of the wall: on the vertical axis, at the wall's line.
    pub open spec fn spec_position(self) -> Vector {
        match self {
            WallLocation::Bottom => Vector { x: 0, y: BOTTOM_WALL },
            WallLocation::Top => Vector { x: 0, y: TOP_WALL },
        }
    }

    /// Extent of the wall: the arena's width and one thickness more, so
    /// that the wall covers the corners; one thickness high.
    pub open spec fn spec_size(self) -> Vector {
        Vector { x: (RIGHT_WALL - LEFT_WALL + WALL_THICKNESS) as i32, y: WALL_THICKNESS }
    }

    pub fn position(&self) -> (p: Vector)
        ensures
            p == self.spec_position(),
    {
        match self {
            WallLocation::Bottom => Vector { x: 0, y: BOTTOM_WALL },
            WallLocation::Top => Vector { x: 0, y: TOP_WALL },
        }
    }

    pub fn size(&self) -> (s: Vector)
        ensures
            s == self.spec_size(),
            s.x > 0,
            s.y > 0,
    {
        let arena_width: i32 = RIGHT_WALL - LEFT_WALL;
        Vector { x: arena_width + WALL_THICKNESS, y: WALL_THICKNESS }
    }
}

/// The two goals, behind the paddles.
#[derive(Clone, Copy, Debug, PartialEq, Eq, Structural)]
pub enum GoalLocation {
    Left,
    Right,
}

impl GoalLocation {
    /// Centre of the goal: on the side line, half a goal thickness below
    /// the horizontal axis.
    pub open spec fn spec_position(self) -> Vector {
        match self {
            GoalLocation::Left => Vector { x: LEFT_WALL, y: (-GOAL_THICKNESS / 2) as i32 },
            GoalLocation::Right => Vector { x: RIGHT_WALL, y: (-GOAL_THICKNESS / 2) as i32 },
        }
    }

    /// Extent of the goal: one goal thickness wide, the arena's height and
    /// one wall thickness more high.
    pub open spec fn spec_size(self) -> Vector {
        Vector { x: GOAL_THICKNESS, y: (TOP_WALL - BOTTOM_WALL + WALL_THICKNESS) as i32 }
    }

    pub fn position(&self) -> (p: Vector)
        ensures
            p == self.spec_position(),
    {
        match self {
            GoalLocation::Left => Vector { x: LEFT_WALL, y: -GOAL_THICKNESS / 2 },
            GoalLocation::Right => Vector { x: RIGHT_WALL, y: -GOAL_THICKNESS / 2 },
        }
    }

    pub fn size(&self) -> (s: Vector)
        ensures
            s == self.spec_size(),
            s.x > 0,
            s.y > 0,
    {
        let arena_height: i32 = TOP_WALL - BOTTOM_WALL;
        Vector { x: GOAL_THICKNESS, y: arena_height + WALL_THICKNESS }
    }
}

} // verus!
