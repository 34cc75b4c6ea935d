use bevy_pong::arena::{
    GoalLocation, Vector, WallLocation, BALL_RADIUS, BALL_START_SPEED, BOTTOM_WALL,
    GAP_BETWEEN_PADDLE_AND_GOAL, GOAL_THICKNESS, LEFT_WALL, PADDLE_HEIGHT, PADDLE_SPEED,
    PADDLE_WIDTH, PIXEL, RIGHT_WALL, TOP_WALL, WALL_THICKNESS,
};
use bevy_pong::match_::{
    ball_size, ball_start_position, ball_start_velocity, draw_midline, move_paddle, paddle_size,
    rand_ball_dir, run_match, setup_match, Dash, Keys, Player, RoundState, Spawn,
    MIDLINE_DASHES, MIDLINE_THICKNESS,
};
use bevy_pong::systems::{setup, GameState, MatchInfo, RoundData, Scores, ROUNDS_TOTAL};

fn pixels(units: i32) -> f32 {
    units as f32 / PIXEL as f32
}

#[test]
fn lengths_in_pixels() {
    assert_eq!(pixels(PADDLE_WIDTH), 20.0);
    assert_eq!(pixels(PADDLE_HEIGHT), 150.0);
    assert_eq!(pixels(GAP_BETWEEN_PADDLE_AND_GOAL), 60.0);
    assert_eq!(pixels(PADDLE_SPEED), 500.0);
    assert_eq!(pixels(BALL_RADIUS), 10.0);
    assert_eq!(pixels(BALL_START_SPEED), 800.0);
    assert_eq!(pixels(WALL_THICKNESS), 10.0);
    assert_eq!(pixels(LEFT_WALL), -450.0);
    assert_eq!(pixels(RIGHT_WALL), 450.0);
    assert_eq!(pixels(BOTTOM_WALL), -300.0);
    assert_eq!(pixels(TOP_WALL), 300.0);
    assert_eq!(pixels(GOAL_THICKNESS), 3.0);
    assert_eq!(pixels(MIDLINE_THICKNESS), 1.0);
}

#[test]
fn walls_lie_on_their_lines_and_cover_the_corners() {
    let bottom = WallLocation::Bottom;
    let top = WallLocation::Top;
    assert_eq!(bottom.position(), Vector { x: 0, y: -1200 });
    assert_eq!(top.position(), Vector { x: 0, y: 1200 });
    assert_eq!(bottom.size(), Vector { x: 3640, y: 40 });
    assert_eq!(top.size(), bottom.size());
    assert_eq!(pixels(top.size().x), 910.0);
    assert_eq!(pixels(top.size().y), 10.0);
}

#[test]
fn goals_lie_on_the_side_lines() {
    let left = GoalLocation::Left;
    let right = GoalLocation::Right;
    assert_eq!(left.position(), Vector { x: -1800, y: -6 });
    assert_eq!(right.position(), Vector { x: 1800, y: -6 });
    assert_eq!(pixels(left.position().y), -1.5);
    assert_eq!(left.size(), Vector { x: 12, y: 2440 });
    assert_eq!(right.size(), left.size());
    assert_eq!(pixels(left.size().x), 3.0);
    assert_eq!(pixels(left.size().y), 610.0);
}

#[test]
fn paddles_start_in_front_of_their_goals() {
    assert_eq!(Player::A.paddle_start_position(), Vector { x: -1560, y: 0 });
    assert_eq!(Player::B.paddle_start_position(), Vector { x: 1560, y: 0 });
    assert_eq!(pixels(Player::A.paddle_start_position().x), -390.0);
    assert_eq!(pixels(Player::B.paddle_start_position().x), 390.0);
    assert_eq!(paddle_size(), Vector { x: 80, y: 600 });
}

#[test]
fn ball_is_served_from_the_centre_down_and_to_the_left() {
    assert_eq!(ball_start_position(), Vector { x: 0, y: 0 });
    assert_eq!(ball_size(), Vector { x: 80, y: 80 });
    assert_eq!(pixels(ball_size().x), 20.0);
    let dir = rand_ball_dir();
    assert_eq!(dir, Vector { x: -2, y: -2 });
    assert_eq!(pixels(dir.x), -0.5);
    assert_eq!(pixels(dir.y), -0.5);
    let velocity = ball_start_velocity();
    assert_eq!(velocity, Vector { x: -1600, y: -1600 });
    assert_eq!(pixels(velocity.x), -0.5 * 800.0);
    assert_eq!(pixels(velocity.y), -0.5 * 800.0);
}

#[test]
fn session_starts_on_the_menu_with_a_clean_slate() {
    let startup = setup();
    assert_eq!(startup.scores, Scores { a: 0, b: 0 });
    assert_eq!(startup.match_info, MatchInfo { round_count: 0, rounds_total: 2 });
    assert_eq!(startup.match_info.rounds_total, ROUNDS_TOTAL);
    assert_eq!(startup.round_data, RoundData { paddle_hit_count: 0 });
    assert_eq!(startup.next_state, GameState::Menu);
}

#[test]
fn match_setup_resets_scores_and_round_count() {
    let mut scores = Scores { a: 4, b: 6 };
    let mut match_ = MatchInfo { round_count: 5, rounds_total: 5 };
    let setup = setup_match(&mut scores, &mut match_);
    assert_eq!(scores, Scores { a: 0, b: 0 });
    assert_eq!(match_, MatchInfo { round_count: 0, rounds_total: 5 });
    assert_eq!(setup.next_state, RoundState::Countdown);
}

#[test]
fn match_field_holds_one_ball_two_paddles_four_boundaries() {
    let mut scores = Scores { a: 0, b: 0 };
    let mut match_ = MatchInfo { round_count: 0, rounds_total: 2 };
    let setup = setup_match(&mut scores, &mut match_);
    assert_eq!(
        setup.field,
        vec![
            Spawn::Paddle(Player::A),
            Spawn::Paddle(Player::B),
            Spawn::Ball,
            Spawn::Scoreboard(Player::A),
            Spawn::Scoreboard(Player::B),
            Spawn::Wall(WallLocation::Bottom),
            Spawn::Wall(WallLocation::Top),
            Spawn::Goal(GoalLocation::Left),
            Spawn::Goal(GoalLocation::Right),
        ]
    );
    let balls = setup.field.iter().filter(|s| matches!(s, Spawn::Ball)).count();
    let paddles = setup.field.iter().filter(|s| matches!(s, Spawn::Paddle(_))).count();
    let boundaries =
        setup.field.iter().filter(|s| matches!(s, Spawn::Wall(_) | Spawn::Goal(_))).count();
    let colliders = setup.field.iter().filter(|s| s.is_collider()).count();
    assert_eq!(balls, 1);
    assert_eq!(paddles, 2);
    assert_eq!(boundaries, 4);
    assert_eq!(colliders, 6);
}

fn keys(w: bool, s: bool, arrow_up: bool, arrow_down: bool) -> Keys {
    Keys { w, s, arrow_up, arrow_down }
}

#[test]
fn paddle_a_follows_w_and_s() {
    assert_eq!(move_paddle(Player::A, keys(false, false, true, true)).direction, 0);
    assert_eq!(move_paddle(Player::A, keys(true, false, false, true)).direction, 1);
    assert_eq!(move_paddle(Player::A, keys(false, true, true, false)).direction, -1);
    assert_eq!(move_paddle(Player::A, keys(true, true, false, false)).direction, 0);
}

#[test]
fn paddle_b_follows_the_arrows() {
    assert_eq!(move_paddle(Player::B, keys(true, true, false, false)).direction, 0);
    assert_eq!(move_paddle(Player::B, keys(false, true, true, false)).direction, 1);
    assert_eq!(move_paddle(Player::B, keys(true, false, false, true)).direction, -1);
    assert_eq!(move_paddle(Player::B, keys(false, false, true, true)).direction, 0);
}

#[test]
fn paddle_moves_at_paddle_speed_between_the_walls() {
    let m = move_paddle(Player::A, keys(true, false, false, false));
    assert_eq!(m.speed, PADDLE_SPEED);
    assert_eq!(m.top_bound, 880);
    assert_eq!(m.bottom_bound, -880);
    assert_eq!(pixels(m.top_bound), 300.0 - 10.0 / 2.0 - 150.0 / 2.0);
    assert_eq!(pixels(m.bottom_bound), -300.0 + 10.0 / 2.0 + 150.0 / 2.0);
    assert_eq!(m.top_bound + PADDLE_HEIGHT / 2, TOP_WALL - WALL_THICKNESS / 2);
    assert_eq!(m.bottom_bound - PADDLE_HEIGHT / 2, BOTTOM_WALL + WALL_THICKNESS / 2);
}

#[test]
fn midline_has_ten_evenly_spaced_dashes() {
    let dashes = draw_midline();
    assert_eq!(dashes.len(), 10);
    assert_eq!(MIDLINE_DASHES, 10);
    for (i, dash) in dashes.iter().enumerate() {
        let start: i32 = -1121 + 236 * i as i32;
        assert_eq!(*dash, Dash { from: Vector { x: 0, y: start }, to: Vector { x: 0, y: start + 118 } });
    }
    assert_eq!(pixels(dashes[0].from.y), -280.25);
    assert_eq!(pixels(dashes[0].to.y), -250.75);
    assert_eq!(pixels(dashes[1].from.y), -221.25);
    assert_eq!(pixels(dashes[9].from.y), 250.75);
    assert_eq!(pixels(dashes[9].to.y), 280.25);
}

#[test]
fn midline_matches_the_running_sum_of_dash_lengths() {
    let height: f32 = 300.0 - -300.0 - 10.0;
    let dash_length = height / (2.0 * 10.0);
    let mut expected = Vec::new();
    let mut y = (-height / 2.0) + (0.5 * dash_length);
    while y < height / 2.0 {
        expected.push((y, y + dash_length));
        y += dash_length * 2.0;
    }
    let dashes = run_match();
    assert_eq!(dashes.len(), expected.len());
    for (dash, (from, to)) in dashes.iter().zip(expected) {
        assert_eq!(pixels(dash.from.x), 0.0);
        assert_eq!(pixels(dash.to.x), 0.0);
        assert_eq!(pixels(dash.from.y), from);
        assert_eq!(pixels(dash.to.y), to);
    }
}
