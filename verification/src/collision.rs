//! Collision classification and response.
//!
//! The geometry itself (does the ball's circle overlap a box, and where is
//! the closest point of the box) is computed by the front end in its own
//! number type. What reaches this module are the outcomes of its
//! comparisons: the sign of each offset and velocity component, and which
//! of two magnitudes is greater. The rules of the game are decided here.

use crate::arena::PIXEL;
use crate::systems::{CollisionEvent, RoundData, ScoreEvent};
use vstd::prelude::*;

verus! {

/// The ball gains speed on every paddle hit whose count is a multiple of
/// this.
pub const HITS_PER_SPEED_UP: usize = 3;

/// The ball's speed after a speed-up, in percent of its speed before.
pub const SPEED_UP_PERCENT: u32 = 103;

/// Vertical speed, per second, that a paddle adds to a ball it returns
/// from high on the paddle.
pub const DEFLECT_SPEED: i32 = 50 * PIXEL;

/// A ball is returned from high on the paddle when its centre lies above
/// the paddle's centre by more than this many quarters of half the
/// paddle's height.
pub const HIGH_IMPACT_QUARTERS: i32 = 1;

/// The sign of a coordinate or of a velocity component. A value that is
/// neither below nor above zero counts as `Zero`.
#[derive(Clone, Copy, Debug, PartialEq, Eq, Structural)]
pub enum Sign {
    Negative,
    Zero,
    Positive,
}

impl Sign {
    /// The sign of the negated value.
    pub open spec fn flipped(self) -> Sign {
        match self {
            Sign::Negative => Sign::Positive,
            Sign::Zero => Sign::Zero,
            Sign::Positive => Sign::Negative,
        }
    }
}

/// The side of a collider that the ball touches, seen from the collider.
#[derive(Clone, Copy, Debug, PartialEq, Eq, Structural)]
pub enum Collision {
    Left,
    Right,
    Top,
    Bottom,
}

/// Where the ball's centre lies relative to the closest point of a box:
/// the signs of the offset (centre minus closest point), and whether the
/// offset is strictly longer along `x` than along `y`.
#[derive(Clone, Copy, Debug, PartialEq, Eq, Structural)]
pub struct Offset {
    pub x: Sign,
    pub y: Sign,
    pub x_dominates: bool,
}

impl Offset {
    /// The side that an overlapping ball with this offset touches. The
    /// longer axis of the offset decides between left/right and top/bottom
    /// (top/bottom when neither is longer); the sign along that axis picks
    /// the side, with a zero offset counting as right or bottom.
    pub open spec fn side(self) -> Collision {
        if self.x_dominates {
            if self.x is Negative {
                Collision::Left
            } else {
                Collision::Right
            }
        } else if self.y is Positive {
            Collision::Top
        } else {
            Collision::Bottom
        }
    }
}

/// Classifies a contact: `None` when the ball does not overlap the box,
/// else the side it touches.
pub fn collide_with_side(intersects: bool, offset: Offset) -> (side: Option<Collision>)
    ensures
        side == if intersects { Some(offset.side()) } else { None },
{
    if !intersects {
        return None;
    }
    let side = if offset.x_dominates {
        match offset.x {
            Sign::Negative => Collision::Left,
            _ => Collision::Right,
        }
    } else {
        match offset.y {
            Sign::Positive => Collision::Top,
            _ => Collision::Bottom,
        }
    };

    Some(side)
}

/// What kind of thing a collider is.
#[derive(Clone, Copy, Debug, PartialEq, Eq, Structural)]
pub enum ColliderKind {
    Goal,
    Wall,
    Paddle,
}

impl ColliderKind {
    /// The kind of a collider from its tags. A goal tag wins over a wall
    /// tag, which wins over a paddle tag; without any, there is no kind.
    pub open spec fn spec_from_tags(goal: bool, wall: bool, paddle: bool) -> Option<ColliderKind> {
        if goal {
            Some(ColliderKind::Goal)
        } else if wall {
            Some(ColliderKind::Wall)
        } else if paddle {
            Some(ColliderKind::Paddle)
        } else {
            None
        }
    }

    pub fn from_tags(goal: bool, wall: bool, paddle: bool) -> (kind: Option<ColliderKind>)
        ensures
            kind == Self::spec_from_tags(goal, wall, paddle),
    {
        if goal {
            Some(ColliderKind::Goal)
        } else if wall {
            Some(ColliderKind::Wall)
        } else if paddle {
            Some(ColliderKind::Paddle)
        } else {
            None
        }
    }

    /// The event that a hit on this kind of collider raises.
    pub open spec fn event(self) -> CollisionEvent {
        match self {
            ColliderKind::Goal => CollisionEvent::Goal,
            ColliderKind::Wall => CollisionEvent::Wall,
            ColliderKind::Paddle => CollisionEvent::Paddle,
        }
    }
}

/// The signs of the ball's velocity components.
#[derive(Clone, Copy, Debug, PartialEq, Eq, Structural)]
pub struct Heading {
    pub x: Sign,
    pub y: Sign,
}

/// An axis of the plane.
#[derive(Clone, Copy, Debug, PartialEq, Eq, Structural)]
pub enum Axis {
    X,
    Y,
}

impl Collision {
    /// The axis across this side.
    pub open spec fn axis(self) -> Axis {
        match self {
            Collision::Left | Collision::Right => Axis::X,
            Collision::Top | Collision::Bottom => Axis::Y,
        }
    }

    /// Whether a ball with this heading moves into the side: to the right
    /// into a left side, to the left into a right side, downwards into a
    /// top side, upwards into a bottom side.
    pub open spec fn faces(self, heading: Heading) -> bool {
        match self {
            Collision::Left => heading.x is Positive,
            Collision::Right => heading.x is Negative,
            Collision::Top => heading.y is Negative,
            Collision::Bottom => heading.y is Positive,
        }
    }

    pub fn is_faced_by(self, heading: Heading) -> (b: bool)
        ensures
            b == self.faces(heading),
    {
        match self {
            Collision::Left => matches!(heading.x, Sign::Positive),
            Collision::Right => matches!(heading.x, Sign::Negative),
            Collision::Top => matches!(heading.y, Sign::Negative),
            Collision::Bottom => matches!(heading.y, Sign::Positive),
        }
    }
}

impl Heading {
    /// The heading after the velocity component along `axis` is negated.
    pub open spec fn reflected(self, axis: Axis) -> Heading {
        match axis {
            Axis::X => Heading { x: self.x.flipped(), y: self.y },
            Axis::Y => Heading { x: self.x, y: self.y.flipped() },
        }
    }
}

/// One collider that the ball overlaps.
#[derive(Clone, Copy, Debug, PartialEq, Eq, Structural)]
pub struct Contact {
    pub kind: ColliderKind,
    /// The side of the collider that the ball touches.
    pub side: Collision,
    /// Whether the ball's centre is high on the collider (see
    /// `HIGH_IMPACT_QUARTERS`). Only paddles heed it.
    pub high_impact: bool,
}

/// What a contact does to the ball's course.
#[derive(Clone, Copy, Debug, PartialEq, Eq, Structural)]
pub enum Bounce {
    /// The velocity stays as it is.
    Pass,
    /// The vertical velocity is negated.
    FlipY,
    /// The horizontal velocity is negated, then `deflect_y` is added to
    /// the vertical velocity.
    FlipX { deflect_y: i32 },
}

/// What a contact leads to. The front end raises the events, then scales
/// the velocity if `speed_up` is set, then applies `bounce`.
#[derive(Clone, Copy, Debug, PartialEq, Eq, Structural)]
pub struct Response {
    pub event: CollisionEvent,
    pub score: Option<ScoreEvent>,
    pub speed_up: bool,
    pub bounce: Bounce,
}

impl Contact {
    /// The point that the contact gives: a ball on the left side of a goal
    /// has passed player B, a point for A; on the right side of a goal it
    /// has passed player A, a point for B. Nothing else scores.
    pub open spec fn score(self) -> Option<ScoreEvent> {
        if self.kind is Goal && self.side is Left {
            Some(ScoreEvent::A)
        } else if self.kind is Goal && self.side is Right {
            Some(ScoreEvent::B)
        } else {
            None
        }
    }

    /// Whether the collider turns back a ball that moves into it: walls
    /// and paddles do, goals do not.
    pub open spec fn is_solid(self) -> bool {
        !(self.kind is Goal)
    }

    /// What the contact adds to the ball's vertical velocity when it turns
    /// the ball back sideways: `DEFLECT_SPEED` on a paddle that is hit
    /// high, else nothing.
    pub open spec fn deflection(self) -> i32 {
        if self.kind is Paddle && self.high_impact {
            DEFLECT_SPEED
        } else {
            0
        }
    }

    /// The change of course for a ball with the given heading: none unless
    /// the collider is solid and the ball moves into the touched side;
    /// then the velocity is reflected across that side, and a reflection
    /// off a left or right side adds the deflection.
    pub open spec fn bounce(self, heading: Heading) -> Bounce {
        if self.is_solid() && self.side.faces(heading) {
            match self.side.axis() {
                Axis::Y => Bounce::FlipY,
                Axis::X => Bounce::FlipX { deflect_y: self.deflection() },
            }
        } else {
            Bounce::Pass
        }
    }

    /// Whether the contact speeds the ball up, after `hits_before` paddle
    /// hits: on a paddle, when the hit's number is a multiple of
    /// `HITS_PER_SPEED_UP`.
    pub open spec fn speeds_up(self, hits_before: usize) -> bool {
        self.kind is Paddle && (hits_before + 1) % (HITS_PER_SPEED_UP as int) == 0
    }

    /// The paddle hit count after the contact.
    pub open spec fn hits_after(self, hits_before: usize) -> int {
        if self.kind is Paddle {
            hits_before + 1
        } else {
            hits_before as int
        }
    }

    /// The whole response to the contact.
    pub open spec fn response(self, heading: Heading, hits_before: usize) -> Response {
        Response {
            event: self.kind.event(),
            score: self.score(),
            speed_up: self.speeds_up(hits_before),
            bounce: self.bounce(heading),
        }
    }
}

/// Decides what one contact of the ball leads to, and counts it if it is a
/// paddle hit. `heading` is the ball's heading when it reaches the
/// collider.
pub fn check_for_collisions(contact: Contact, heading: Heading, round_data: &mut RoundData) -> (r:
    Response)
    requires
        contact.kind is Paddle ==> old(round_data).paddle_hit_count < usize::MAX,
    ensures
        r == contact.response(heading, old(round_data).paddle_hit_count),
        final(round_data).paddle_hit_count == contact.hits_after(
            old(round_data).paddle_hit_count,
        ),
{
    let event = match contact.kind {
        ColliderKind::Goal => CollisionEvent::Goal,
        ColliderKind::Wall => CollisionEvent::Wall,
        ColliderKind::Paddle => CollisionEvent::Paddle,
    };
    match contact.kind {
        ColliderKind::Goal => {
            let score = match contact.side {
                Collision::Left => Some(ScoreEvent::A),
                Collision::Right => Some(ScoreEvent::B),
                _ => None,
            };
            Response { event, score, speed_up: false, bounce: Bounce::Pass }
        },
        ColliderKind::Wall => {
            let bounce = reflect(contact.side, heading, 0);
            Response { event, score: None, speed_up: false, bounce }
        },
        ColliderKind::Paddle => {
            round_data.paddle_hit_count += 1;
            let speed_up = round_data.paddle_hit_count % HITS_PER_SPEED_UP == 0;
            let deflect_y: i32 = if contact.high_impact {
                DEFLECT_SPEED
            } else {
                0
            };
            let bounce = reflect(contact.side, heading, deflect_y);
            Response { event, score: None, speed_up, bounce }
        },
    }
}

/// Turns back a ball that moves into `side`, adding `deflect_y` where it is
/// turned back sideways.
fn reflect(side: Collision, heading: Heading, deflect_y: i32) -> (bounce: Bounce)
    ensures
        bounce == if !side.faces(heading) {
            Bounce::Pass
        } else if side.axis() is Y {
            Bounce::FlipY
        } else {
            Bounce::FlipX { deflect_y }
        },
{
    if side.is_faced_by(heading) {
        match side {
            Collision::Top | Collision::Bottom => Bounce::FlipY,
            Collision::Left | Collision::Right => Bounce::FlipX { deflect_y },
        }
    } else {
        Bounce::Pass
    }
}

/// A ball that a side has turned back is not turned back by that side
/// again: once reflected, it no longer moves into the side, whatever has
/// happened to its velocity along the other axis.
pub proof fn lemma_reflected_ball_passes(contact: Contact, before: Heading, after: Heading)
    requires
        contact.bounce(before) !is Pass,
        contact.side.axis() is X ==> after.x == before.x.flipped(),
        contact.side.axis() is Y ==> after.y == before.y.flipped(),
    ensures
        contact.bounce(after) is Pass,
{
}

/// Only goals give points, and goals leave the ball's course alone; only
/// paddles deflect the ball or speed it up.
pub proof fn lemma_kinds_keep_to_their_part(contact: Contact, heading: Heading, hits_before: usize)
    ensures
        contact.score() is Some ==> contact.kind is Goal,
        contact.kind is Goal ==> contact.bounce(heading) is Pass,
        contact.bounce(heading) matches Bounce::FlipX { deflect_y } && deflect_y != 0
            ==> contact.kind is Paddle,
        contact.speeds_up(hits_before) ==> contact.kind is Paddle,
{
}

/// Of any three paddle hits in a row, exactly one speeds the ball up.
pub proof fn lemma_every_third_hit_speeds_up(contact: Contact, hits_before: usize)
    requires
        contact.kind is Paddle,
        hits_before + 2 <= usize::MAX,
    ensures
        contact.speeds_up(hits_before) || contact.speeds_up((hits_before + 1) as usize)
            || contact.speeds_up((hits_before + 2) as usize),
        !(contact.speeds_up(hits_before) && contact.speeds_up((hits_before + 1) as usize)),
        !(contact.speeds_up(hits_before) && contact.speeds_up((hits_before + 2) as usize)),
        !(contact.speeds_up((hits_before + 1) as usize) && contact.speeds_up(
            (hits_before + 2) as usize,
        )),
{
}

} // verus!
