//! The match: what is on the field, how paddles move, and how points and
//! the end of the match are handled.

use crate::arena::{
    GoalLocation, Vector, WallLocation, BALL_RADIUS, BALL_START_SPEED, BOTTOM_WALL,
    GAP_BETWEEN_PADDLE_AND_GOAL, LEFT_WALL, PADDLE_HEIGHT, PADDLE_SPEED, PADDLE_WIDTH, PIXEL,
    RIGHT_WALL, TOP_WALL, WALL_THICKNESS,
};
use crate::systems::{
    spawn_timed_message, GameState, MatchInfo, ScoreEvent, Scores, TimedMessage,
};
use crate::timer::{tick_finishes, ticked_elapsed, GameTimer, Repeat};
use vstd::prelude::*;
use vstd::string::StringExecFns;

verus! {

/// The phases of a round; exactly one is current. `Out` is the phase
/// outside of any match.
#[derive(Clone, Copy, Debug, PartialEq, Eq, Hash, Structural)]
pub enum RoundState {
    Out,
    In,
    Scored,
    Countdown,
}

/// The two players: A defends the left goal, B the right one.
#[derive(Clone, Copy, Debug, PartialEq, Eq, Structural)]
pub enum Player {
    A,
    B,
}

impl Player {
    /// Where the player's paddle stands when a round begins: on the
    /// horizontal axis, a gap in front of the player's goal.
    pub open spec fn spec_paddle_start_position(self) -> Vector {
        match self {
            Player::A => Vector { x: (LEFT_WALL + GAP_BETWEEN_PADDLE_AND_GOAL) as i32, y: 0 },
            Player::B => Vector { x: (RIGHT_WALL - GAP_BETWEEN_PADDLE_AND_GOAL) as i32, y: 0 },
        }
    }

    pub fn paddle_start_position(self) -> (p: Vector)
        ensures
            p == self.spec_paddle_start_position(),
    {
        match self {
            Player::A => Vector { x: LEFT_WALL + GAP_BETWEEN_PADDLE_AND_GOAL, y: 0 },
            Player::B => Vector { x: RIGHT_WALL - GAP_BETWEEN_PADDLE_AND_GOAL, y: 0 },
        }
    }
}

/// Extent of a paddle.
pub fn paddle_size() -> (s: Vector)
    ensures
        s == (Vector { x: PADDLE_WIDTH, y: PADDLE_HEIGHT }),
{
    Vector { x: PADDLE_WIDTH, y: PADDLE_HEIGHT }
}

/// Where the ball lies when a round begins: the centre of the arena.
pub fn ball_start_position() -> (p: Vector)
    ensures
        p == (Vector { x: 0, y: 0 }),
{
    Vector { x: 0, y: 0 }
}

/// Extent of the ball: its diameter both ways.
pub fn ball_size() -> (s: Vector)
    ensures
        s.x == 2 * BALL_RADIUS,
        s.y == 2 * BALL_RADIUS,
{
    Vector { x: 2 * BALL_RADIUS, y: 2 * BALL_RADIUS }
}

/// The direction in which the ball is served, always the same one: each
/// component is counted in parts of `PIXEL`, and is one half to the left
/// and one half down.
pub open spec fn spec_rand_ball_dir() -> Vector {
    Vector { x: (-PIXEL / 2) as i32, y: (-PIXEL / 2) as i32 }
}

pub fn rand_ball_dir() -> (dir: Vector)
    ensures
        dir == spec_rand_ball_dir(),
{
    Vector { x: -PIXEL / 2, y: -PIXEL / 2 }
}

/// The velocity with which the ball is served: the serving direction
/// times the starting speed.
pub open spec fn spec_ball_start_velocity() -> Vector {
    Vector {
        x: (spec_rand_ball_dir().x * BALL_START_SPEED / PIXEL as int) as i32,
        y: (spec_rand_ball_dir().y * BALL_START_SPEED / PIXEL as int) as i32,
    }
}

pub fn ball_start_velocity() -> (v: Vector)
    ensures
        v == spec_ball_start_velocity(),
        v.x == -BALL_START_SPEED / 2,
        v.y == -BALL_START_SPEED / 2,
{
    let dir = rand_ball_dir();
    Vector { x: dir.x * (BALL_START_SPEED / PIXEL), y: dir.y * (BALL_START_SPEED / PIXEL) }
}

/// One thing to put on the field when a match starts.
#[derive(Clone, Copy, Debug, PartialEq, Eq, Structural)]
pub enum Spawn {
    Paddle(Player),
    Ball,
    Scoreboard(Player),
    Wall(WallLocation),
    Goal(GoalLocation),
}

impl Spawn {
    /// Whether the ball can run into it.
    pub open spec fn spec_is_collider(self) -> bool {
        self is Paddle || self is Wall || self is Goal
    }

    /// Whether it bounds the arena.
    pub open spec fn spec_is_boundary(self) -> bool {
        self is Wall || self is Goal
    }

    pub fn is_collider(&self) -> (b: bool)
        ensures
            b == self.spec_is_collider(),
    {
        match self {
            Spawn::Paddle(_) | Spawn::Wall(_) | Spawn::Goal(_) => true,
            Spawn::Ball | Spawn::Scoreboard(_) => false,
        }
    }
}

/// Everything on the field of a match, in the order it is put there.
pub open spec fn match_field() -> Seq<Spawn> {
    seq![
        Spawn::Paddle(Player::A),
        Spawn::Paddle(Player::B),
        Spawn::Ball,
        Spawn::Scoreboard(Player::A),
        Spawn::Scoreboard(Player::B),
        Spawn::Wall(WallLocation::Bottom),
        Spawn::Wall(WallLocation::Top),
        Spawn::Goal(GoalLocation::Left),
        Spawn::Goal(GoalLocation::Right),
    ]
}

/// How many entries of `field` are `wanted`.
pub open spec fn count(field: Seq<Spawn>, wanted: spec_fn(Spawn) -> bool) -> nat
    decreases field.len(),
{
    if field.len() == 0 {
        0
    } else {
        count(field.drop_last(), wanted) + if wanted(field.last()) { 1nat } else { 0nat }
    }
}

/// What starting a match asks of the front end.
pub struct MatchSetup {
    /// What to put on the field, in order.
    pub field: Vec<Spawn>,
    /// The round phase to enter.
    pub next_state: RoundState,
}

/// Starts a match: both scores and the round count go back to zero, the
/// number of rounds to play stays as it is, the field is laid out and the
/// countdown of the first round begins.
pub fn setup_match(scores: &mut Scores, match_: &mut MatchInfo) -> (setup: MatchSetup)
    ensures
        *final(scores) == (Scores { a: 0, b: 0 }),
        *final(match_) == (MatchInfo { round_count: 0, rounds_total: old(match_).rounds_total }),
        setup.field@ == match_field(),
        setup.next_state == RoundState::Countdown,
{
    scores.a = 0;
    scores.b = 0;
    match_.round_count = 0;

    let mut field: Vec<Spawn> = Vec::new();
    field.push(Spawn::Paddle(Player::A));
    field.push(Spawn::Paddle(Player::B));
    field.push(Spawn::Ball);
    field.push(Spawn::Scoreboard(Player::A));
    field.push(Spawn::Scoreboard(Player::B));
    field.push(Spawn::Wall(WallLocation::Bottom));
    field.push(Spawn::Wall(WallLocation::Top));
    field.push(Spawn::Goal(GoalLocation::Left));
    field.push(Spawn::Goal(GoalLocation::Right));

    MatchSetup { field, next_state: RoundState::Countdown }
}

/// A match is played with exactly one ball, two paddles and four boundary
/// colliders.
pub proof fn lemma_match_field_population()
    ensures
        count(match_field(), |s: Spawn| s is Ball) == 1,
        count(match_field(), |s: Spawn| s is Paddle) == 2,
        count(match_field(), |s: Spawn| s.spec_is_boundary()) == 4,
{
    lemma_count_on_match_field(|s: Spawn| s is Ball);
    lemma_count_on_match_field(|s: Spawn| s is Paddle);
    lemma_count_on_match_field(|s: Spawn| s.spec_is_boundary());
}

/// The count on the field of a match, entry by entry.
proof fn lemma_count_on_match_field(wanted: spec_fn(Spawn) -> bool)
    ensures
        count(match_field(), wanted) == (if wanted(Spawn::Paddle(Player::A)) { 1nat } else { 0nat })
            + (if wanted(Spawn::Paddle(Player::B)) { 1nat } else { 0nat })
            + (if wanted(Spawn::Ball) { 1nat } else { 0nat })
            + (if wanted(Spawn::Scoreboard(Player::A)) { 1nat } else { 0nat })
            + (if wanted(Spawn::Scoreboard(Player::B)) { 1nat } else { 0nat })
            + (if wanted(Spawn::Wall(WallLocation::Bottom)) { 1nat } else { 0nat })
            + (if wanted(Spawn::Wall(WallLocation::Top)) { 1nat } else { 0nat })
            + (if wanted(Spawn::Goal(GoalLocation::Left)) { 1nat } else { 0nat })
            + (if wanted(Spawn::Goal(GoalLocation::Right)) { 1nat } else { 0nat }),
{
    let f9 = match_field();
    let f8 = f9.drop_last();
    let f7 = f8.drop_last();
    let f6 = f7.drop_last();
    let f5 = f6.drop_last();
    let f4 = f5.drop_last();
    let f3 = f4.drop_last();
    let f2 = f3.drop_last();
    let f1 = f2.drop_last();
    let f0 = f1.drop_last();
    assert(count(f0, wanted) == 0);
    assert(count(f1, wanted) == count(f0, wanted) + (if wanted(f1.last()) { 1nat } else { 0nat }));
    assert(count(f2, wanted) == count(f1, wanted) + (if wanted(f2.last()) { 1nat } else { 0nat }));
    assert(count(f3, wanted) == count(f2, wanted) + (if wanted(f3.last()) { 1nat } else { 0nat }));
    assert(count(f4, wanted) == count(f3, wanted) + (if wanted(f4.last()) { 1nat } else { 0nat }));
    assert(count(f5, wanted) == count(f4, wanted) + (if wanted(f5.last()) { 1nat } else { 0nat }));
    assert(count(f6, wanted) == count(f5, wanted) + (if wanted(f6.last()) { 1nat } else { 0nat }));
    assert(count(f7, wanted) == count(f6, wanted) + (if wanted(f7.last()) { 1nat } else { 0nat }));
    assert(count(f8, wanted) == count(f7, wanted) + (if wanted(f8.last()) { 1nat } else { 0nat }));
    assert(count(f9, wanted) == count(f8, wanted) + (if wanted(f9.last()) { 1nat } else { 0nat }));
}

/// How long the message at the end of a match stays, in nanoseconds.
pub const END_MESSAGE_NANOS: u64 = 1_000_000_000;

/// Thickness of the line down the middle of the field.
pub const MIDLINE_THICKNESS: i32 = PIXEL;

/// Dashes in the line down the middle of the field.
pub const MIDLINE_DASHES: i32 = 10;

impl ScoreEvent {
    /// The player whose point this is.
    pub open spec fn spec_scorer(self) -> Player {
        match self {
            ScoreEvent::A => Player::A,
            ScoreEvent::B => Player::B,
        }
    }

    pub fn scorer(self) -> (player: Player)
        ensures
            player == self.spec_scorer(),
    {
        match self {
            ScoreEvent::A => Player::A,
            ScoreEvent::B => Player::B,
        }
    }
}

impl Scores {
    /// The points of `player`.
    pub open spec fn spec_of(self, player: Player) -> usize {
        match player {
            Player::A => self.a,
            Player::B => self.b,
        }
    }

    pub fn of(&self, player: Player) -> (points: usize)
        ensures
            points == self.spec_of(player),
    {
        match player {
            Player::A => self.a,
            Player::B => self.b,
        }
    }

    /// The scores after one more point for `player`.
    pub open spec fn with_point_for(self, player: Player) -> Scores {
        match player {
            Player::A => Scores { a: (self.a + 1) as usize, b: self.b },
            Player::B => Scores { a: self.a, b: (self.b + 1) as usize },
        }
    }

    /// The player who has won a match that ends with these scores: A with
    /// more points than B, else B.
    pub open spec fn spec_winner(self) -> Player {
        if self.a > self.b {
            Player::A
        } else {
            Player::B
        }
    }

    pub fn winner(&self) -> (player: Player)
        ensures
            player == self.spec_winner(),
    {
        if self.a > self.b {
            Player::A
        } else {
            Player::B
        }
    }
}

/// The decimal digit of value `d`.
pub open spec fn digit_char(d: int) -> char {
    if d == 0 {
        '0'
    } else if d == 1 {
        '1'
    } else if d == 2 {
        '2'
    } else if d == 3 {
        '3'
    } else if d == 4 {
        '4'
    } else if d == 5 {
        '5'
    } else if d == 6 {
        '6'
    } else if d == 7 {
        '7'
    } else if d == 8 {
        '8'
    } else {
        '9'
    }
}

/// The decimal numeral of `n`, without leading zeros.
pub open spec fn decimal(n: nat) -> Seq<char>
    decreases n,
{
    if n < 10 {
        seq![digit_char(n as int)]
    } else {
        decimal(n / 10).push(digit_char((n % 10) as int))
    }
}

fn digit_text(d: usize) -> (text: &'static str)
    requires
        d < 10,
    ensures
        text@ == seq![digit_char(d as int)],
{
    proof {
        reveal_strlit("0");
        reveal_strlit("1");
        reveal_strlit("2");
        reveal_strlit("3");
        reveal_strlit("4");
        reveal_strlit("5");
        reveal_strlit("6");
        reveal_strlit("7");
        reveal_strlit("8");
        reveal_strlit("9");
    }
    let text = if d == 0 {
        "0"
    } else if d == 1 {
        "1"
    } else if d == 2 {
        "2"
    } else if d == 3 {
        "3"
    } else if d == 4 {
        "4"
    } else if d == 5 {
        "5"
    } else if d == 6 {
        "6"
    } else if d == 7 {
        "7"
    } else if d == 8 {
        "8"
    } else {
        "9"
    };
    assert(text@ =~= seq![digit_char(d as int)]);
    text
}

fn decimal_text(n: usize) -> (text: String)
    ensures
        text@ == decimal(n as nat),
    decreases n,
{
    if n < 10 {
        digit_text(n).to_owned()
    } else {
        let mut text = decimal_text(n / 10);
        text.append(digit_text(n % 10));
        assert(text@ =~= decimal(n as nat));
        text
    }
}

/// The text on the scoreboard of `player`: the player's points as a
/// decimal numeral.
pub fn update_score_ui(scores: &Scores, player: Player) -> (text: String)
    ensures
        text@ == decimal(scores.spec_of(player) as nat),
{
    decimal_text(scores.of(player))
}

/// Books the point of a round. Only the first of `score_events` counts:
/// its player gets one point and the round goes on to `Scored`. Without an
/// event nothing happens.
pub fn process_score(scores: &mut Scores, score_events: &Vec<ScoreEvent>) -> (next_state: Option<
    RoundState,
>)
    requires
        score_events.len() > 0 ==> old(scores).spec_of(score_events[0].spec_scorer())
            < usize::MAX,
    ensures
        score_events.len() == 0 ==> *final(scores) == *old(scores) && next_state is None,
        score_events.len() > 0 ==> *final(scores) == old(scores).with_point_for(
            score_events[0].spec_scorer(),
        ) && next_state == Some(RoundState::Scored),
{
    if score_events.len() > 0 {
        match score_events[0] {
            ScoreEvent::A => {
                scores.a += 1;
            },
            ScoreEvent::B => {
                scores.b += 1;
            },
        }
        Some(RoundState::Scored)
    } else {
        None
    }
}

/// The message at the end of a match that `winner` has won.
pub open spec fn spec_end_text(winner: Player) -> Seq<char> {
    match winner {
        Player::A => "Player A wins the match!"@,
        Player::B => "Player B wins the match!"@,
    }
}

/// Announces the winner of the match.
pub fn setup_end(scores: &Scores) -> (message: TimedMessage)
    ensures
        message.text@ == spec_end_text(scores.spec_winner()),
        message.timer.duration() == END_MESSAGE_NANOS,
        message.timer.repeat() == Repeat::Once,
        message.timer.elapsed() == 0,
        !message.timer.finished(),
{
    match scores.winner() {
        Player::A => spawn_timed_message("Player A wins the match!", END_MESSAGE_NANOS),
        Player::B => spawn_timed_message("Player B wins the match!", END_MESSAGE_NANOS),
    }
}

/// Lets `delta` nanoseconds pass on the message at the end of a match;
/// when its time is up, the game goes back to the menu.
pub fn run_end(timer: &mut GameTimer, delta: u64) -> (next_state: Option<GameState>)
    ensures
        final(timer).duration() == old(timer).duration(),
        final(timer).repeat() == old(timer).repeat(),
        final(timer).elapsed() == ticked_elapsed(
            old(timer).duration(),
            old(timer).repeat(),
            old(timer).elapsed(),
            delta,
        ),
        final(timer).finished() == tick_finishes(
            old(timer).duration(),
            old(timer).elapsed(),
            delta,
        ),
        next_state == if final(timer).finished() {
            Some(GameState::Menu)
        } else {
            None
        },
{
    if timer.tick(delta) {
        Some(GameState::Menu)
    } else {
        None
    }
}

/// The keys that move the paddles, each `true` while it is held down.
#[derive(Clone, Copy, Debug, PartialEq, Eq, Structural)]
pub struct Keys {
    pub w: bool,
    pub s: bool,
    pub arrow_up: bool,
    pub arrow_down: bool,
}

/// How a paddle is to move: `direction` times `speed` per second along
/// `y`, and never beyond the bounds.
#[derive(Clone, Copy, Debug, PartialEq, Eq, Structural)]
pub struct PaddleMove {
    /// 1 for up, -1 for down, 0 for rest.
    pub direction: i32,
    pub speed: i32,
    /// The lowest `y` that the paddle's centre may take.
    pub bottom_bound: i32,
    /// The highest `y` that the paddle's centre may take.
    pub top_bound: i32,
}

impl Keys {
    /// Whether the key that moves the paddle of `player` up is down: `W`
    /// for A, the up arrow for B.
    pub open spec fn up(self, player: Player) -> bool {
        match player {
            Player::A => self.w,
            Player::B => self.arrow_up,
        }
    }

    /// Whether the key that moves the paddle of `player` down is down: `S`
    /// for A, the down arrow for B.
    pub open spec fn down(self, player: Player) -> bool {
        match player {
            Player::A => self.s,
            Player::B => self.arrow_down,
        }
    }

    /// The way the paddle of `player` is steered: one up for the up key,
    /// one down for the down key; both together cancel.
    pub open spec fn direction(self, player: Player) -> int {
        (if self.up(player) { 1int } else { 0int }) - (if self.down(player) { 1int } else { 0int })
    }
}

/// The highest `y` that a paddle's centre may take: with the paddle's top
/// edge at the inner edge of the top wall.
pub open spec fn paddle_top_bound() -> int {
    TOP_WALL - WALL_THICKNESS / 2 - PADDLE_HEIGHT / 2
}

/// The lowest `y` that a paddle's centre may take: with the paddle's
/// bottom edge at the inner edge of the bottom wall.
pub open spec fn paddle_bottom_bound() -> int {
    BOTTOM_WALL + WALL_THICKNESS / 2 + PADDLE_HEIGHT / 2
}

/// Steers the paddle of `player` by the keys held down.
pub fn move_paddle(player: Player, keys: Keys) -> (m: PaddleMove)
    ensures
        m.direction == keys.direction(player),
        m.speed == PADDLE_SPEED,
        m.bottom_bound == paddle_bottom_bound(),
        m.top_bound == paddle_top_bound(),
        m.bottom_bound < m.top_bound,
{
    let top_bound: i32 = TOP_WALL - WALL_THICKNESS / 2 - PADDLE_HEIGHT / 2;
    let bottom_bound: i32 = BOTTOM_WALL + WALL_THICKNESS / 2 + PADDLE_HEIGHT / 2;

    let (up, down) = match player {
        Player::A => (keys.w, keys.s),
        Player::B => (keys.arrow_up, keys.arrow_down),
    };
    let mut direction: i32 = 0;
    if up {
        direction += 1;
    }
    if down {
        direction -= 1;
    }

    PaddleMove { direction, speed: PADDLE_SPEED, bottom_bound, top_bound }
}

/// A paddle whose centre is within its bounds lies between the inner
/// edges of the two walls.
pub proof fn lemma_paddle_stays_between_walls(y: int)
    requires
        paddle_bottom_bound() <= y <= paddle_top_bound(),
    ensures
        y + PADDLE_HEIGHT / 2 <= TOP_WALL - WALL_THICKNESS / 2,
        y - PADDLE_HEIGHT / 2 >= BOTTOM_WALL + WALL_THICKNESS / 2,
{
}

/// A stroke of the line down the middle of the field.
#[derive(Clone, Copy, Debug, PartialEq, Eq, Structural)]
pub struct Dash {
    pub from: Vector,
    pub to: Vector,
}

/// Height of the line down the middle: from the inner edge of one wall to
/// the inner edge of the other.
pub open spec fn midline_height() -> int {
    TOP_WALL - BOTTOM_WALL - WALL_THICKNESS
}

/// Length of a dash: the line holds `MIDLINE_DASHES` dashes and as many
/// gaps of the same length.
pub open spec fn dash_length() -> int {
    midline_height() / (2 * MIDLINE_DASHES)
}

/// The dash of the given index, counted from the bottom. The line begins
/// with half a gap; each dash starts two dash lengths above the one
/// before; all run along the vertical axis.
pub open spec fn midline_dash(index: int) -> Dash {
    let start: int = -midline_height() / 2 + dash_length() / 2 + index * 2 * dash_length();
    Dash {
        from: Vector { x: 0, y: start as i32 },
        to: Vector { x: 0, y: (start + dash_length()) as i32 },
    }
}

/// The ordinates of a dash, worked out: the lowest dash starts 280 pixels
/// and a quarter below the centre, each dash is 29 pixels and a half long
/// and starts 59 pixels above the one before.
proof fn lemma_midline_dash_ordinates(index: int)
    requires
        0 <= index < MIDLINE_DASHES,
    ensures
        midline_height() == 2360,
        dash_length() == 118,
        midline_dash(index).from == (Vector { x: 0, y: (236 * index - 1121) as i32 }),
        midline_dash(index).to == (Vector { x: 0, y: (236 * index - 1003) as i32 }),
{
    assert(index * 2 * dash_length() == 236 * index) by (nonlinear_arith)
        requires
            dash_length() == 118,
    ;
}

/// The dashes of the line down the middle of the field, from the bottom
/// up.
pub fn draw_midline() -> (dashes: Vec<Dash>)
    ensures
        dashes@ == Seq::new(MIDLINE_DASHES as nat, |i: int| midline_dash(i)),
        forall|i: int|
            0 <= i < dashes.len() ==> -midline_height() / 2 < #[trigger] dashes[i].from.y
                < dashes[i].to.y < midline_height() / 2,
{
    let height: i32 = TOP_WALL - BOTTOM_WALL - WALL_THICKNESS;
    let dash_length: i32 = height / (2 * MIDLINE_DASHES);

    let mut dashes: Vec<Dash> = Vec::new();
    let mut y: i32 = (-height / 2) + (dash_length / 2);
    while y < height / 2
        invariant
            height == 2360,
            dash_length == 118,
            0 <= dashes.len() <= MIDLINE_DASHES,
            y == 236 * dashes.len() - 1121,
            forall|i: int| 0 <= i < dashes.len() ==> dashes[i] == midline_dash(i),
        decreases MIDLINE_DASHES - dashes.len(),
    {
        proof {
            lemma_midline_dash_ordinates(dashes.len() as int);
        }
        dashes.push(Dash { from: Vector { x: 0, y }, to: Vector { x: 0, y: y + dash_length } });
        y += dash_length * 2;
    }

    proof {
        assert forall|i: int| 0 <= i < dashes.len() implies -midline_height() / 2
            < #[trigger] dashes[i].from.y < dashes[i].to.y < midline_height() / 2 by {
            lemma_midline_dash_ordinates(i);
        }
    }
    dashes
}

/// The line to draw while a match is on.
pub fn run_match() -> (dashes: Vec<Dash>)
    ensures
        dashes@ == Seq::new(MIDLINE_DASHES as nat, |i: int| midline_dash(i)),
{
    draw_midline()
}

} // verus!
