use bevy_pong::arena::Vector;
use bevy_pong::countdown::{
    countdown_text, run_countdown, setup_countdown, CountdownTimedMessage, COUNTDOWN_STEPS,
    COUNTDOWN_STEP_NANOS,
};
use bevy_pong::match_::RoundState;

const MS: u64 = 1_000_000;

#[test]
fn countdown_texts() {
    assert_eq!(countdown_text(0), "3..");
    assert_eq!(countdown_text(1), "2..");
    assert_eq!(countdown_text(2), "1..");
    assert_eq!(countdown_text(3), "Go!");
    assert_eq!(countdown_text(4), "Go!");
    assert_eq!(countdown_text(usize::MAX), "Go!");
}

#[test]
fn countdown_numbers() {
    assert_eq!(COUNTDOWN_STEP_NANOS, 300 * MS);
    assert_eq!(COUNTDOWN_STEPS, 3);
}

#[test]
fn countdown_setup_resets_ball_and_paddles() {
    let setup = setup_countdown();
    assert_eq!(setup.ball_position, Vector { x: 0, y: 0 });
    assert_eq!(setup.ball_velocity, Vector { x: -1600, y: -1600 });
    assert_eq!(setup.paddle_a_position, Vector { x: -1560, y: 0 });
    assert_eq!(setup.paddle_b_position, Vector { x: 1560, y: 0 });
    assert_eq!(setup.text, "3..");
    assert_eq!(setup.message.cursor(), 0);
    assert_eq!(setup.message.elapsed_nanos(), 0);
    assert_eq!(setup.message.text(), "3..");
}

#[test]
fn countdown_waits_while_no_step_completes() {
    let mut message = CountdownTimedMessage::new();
    let tick = run_countdown(&mut message, 299 * MS);
    assert_eq!(tick.text, None);
    assert_eq!(tick.next_state, None);
    assert_eq!(message.cursor(), 0);
    assert_eq!(message.elapsed_nanos(), 299 * MS);
    assert_eq!(message.text(), "3..");
}

#[test]
fn countdown_takes_three_steps_to_start_the_round() {
    let mut message = CountdownTimedMessage::new();

    let tick = run_countdown(&mut message, 300 * MS);
    assert_eq!(tick.text.as_deref(), Some("2.."));
    assert_eq!(tick.next_state, None);
    assert_eq!(message.cursor(), 1);

    let tick = run_countdown(&mut message, 300 * MS);
    assert_eq!(tick.text.as_deref(), Some("1.."));
    assert_eq!(tick.next_state, None);
    assert_eq!(message.cursor(), 2);

    let tick = run_countdown(&mut message, 300 * MS);
    assert_eq!(tick.text.as_deref(), Some("Go!"));
    assert_eq!(tick.next_state, Some(RoundState::In));
    assert_eq!(message.cursor(), 0);
    assert_eq!(message.elapsed_nanos(), 0);
    assert_eq!(message.text(), "3..");
}

#[test]
fn countdown_steps_at_frame_rate() {
    let mut message = CountdownTimedMessage::new();
    let mut shown = Vec::new();
    let mut frames: u64 = 0;
    loop {
        frames += 1;
        let tick = run_countdown(&mut message, 16 * MS);
        if let Some(text) = tick.text {
            shown.push((frames, text));
        }
        if tick.next_state.is_some() {
            assert_eq!(tick.next_state, Some(RoundState::In));
            break;
        }
        assert!(frames < 1000);
    }
    assert_eq!(
        shown,
        vec![(19, "2..".to_string()), (38, "1..".to_string()), (57, "Go!".to_string())]
    );
    assert_eq!(frames, 57);
    assert_eq!(message.elapsed_nanos(), 57 * 16 * MS - 900 * MS);
}

#[test]
fn countdown_takes_one_step_for_a_long_frame() {
    let mut message = CountdownTimedMessage::new();
    let tick = run_countdown(&mut message, 1000 * MS);
    assert_eq!(tick.text.as_deref(), Some("2.."));
    assert_eq!(tick.next_state, None);
    assert_eq!(message.cursor(), 1);
    assert_eq!(message.elapsed_nanos(), 100 * MS);
}

#[test]
fn countdown_runs_again_after_it_started_a_round() {
    let mut message = CountdownTimedMessage::new();
    for _ in 0..3 {
        run_countdown(&mut message, 300 * MS);
    }
    let tick = run_countdown(&mut message, 300 * MS);
    assert_eq!(tick.text.as_deref(), Some("2.."));
    assert_eq!(message.cursor(), 1);
}
