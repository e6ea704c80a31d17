use prime_trainer::game_state::GameState;
use prime_trainer::globals::{Facing, Player};
use prime_trainer::replay::{key_transitions, InputField, KeyEvent, ReplayError};
use prime_trainer::snapshot::{FrameSnapshot, PlayerSnapshot};

fn recorded_player(attack: u16, direction: u16) -> PlayerSnapshot {
    PlayerSnapshot {
        x_bits: None,
        y_bits: None,
        z_bits: None,
        input_attack: Some(attack),
        input_direction: Some(direction),
        damage_received: Some(0),
        facing: Some(Facing::Left),
        character_id: None,
    }
}

fn frame(p1: PlayerSnapshot, p2: PlayerSnapshot, round_frame: u32) -> FrameSnapshot {
    FrameSnapshot {
        round: Some(1),
        round_frame: Some(round_frame),
        round_frame_previous: round_frame.checked_sub(1).map(|f| f),
        captured_at_ms: round_frame as u64 * 8,
        players: (p1, p2),
    }
}

/// A live sampling state in which both players' facing flags were read.
fn live_state() -> GameState {
    let mut state = GameState::new();
    state.players.0.facing = Some(Facing::Left);
    state.players.1.facing = Some(Facing::Right);
    state
}

#[test]
fn key_transitions_press_everything_from_nothing() {
    assert_eq!(
        key_transitions(&vec![], &vec![b'u', b'i']),
        vec![KeyEvent::Down(b'u'), KeyEvent::Down(b'i')]
    );
}

#[test]
fn key_transitions_leave_held_keys_untouched() {
    assert_eq!(key_transitions(&vec![b'u'], &vec![b'u', b'i']), vec![KeyEvent::Down(b'i')]);
    assert_eq!(
        key_transitions(&vec![b'a', b's'], &vec![b's', b'd']),
        vec![KeyEvent::Up(b'a'), KeyEvent::Down(b'd')]
    );
    assert_eq!(key_transitions(&vec![b'w', b'a'], &vec![b'w', b'a']), vec![]);
}

#[test]
fn key_transitions_release_everything_to_nothing() {
    assert_eq!(
        key_transitions(&vec![b'u', b'i'], &vec![]),
        vec![KeyEvent::Up(b'u'), KeyEvent::Up(b'i')]
    );
}

#[test]
fn replay_presses_only_the_new_button_key() {
    // Player one holds button One for three frames, then One plus Two:
    // frame 0 presses its key, the held frames emit nothing, and the
    // fourth frame presses only the added key.
    let mut state = live_state();
    let neutral = 32;
    let one = 512;
    let one_plus_two = 1536;

    let first = state
        .replay(&frame(recorded_player(one, neutral), recorded_player(0, neutral), 0), false);
    assert_eq!(first.p1.unwrap(), vec![KeyEvent::Down(b'u')]);

    for round_frame in 1..=2 {
        let held = state.replay(
            &frame(recorded_player(one, neutral), recorded_player(0, neutral), round_frame),
            false,
        );
        assert_eq!(held.p1.unwrap(), vec![]);
    }

    let extended = state
        .replay(&frame(recorded_player(one_plus_two, neutral), recorded_player(0, neutral), 3), false);
    assert_eq!(extended.p1.unwrap(), vec![KeyEvent::Down(b'i')]);
}

#[test]
fn replay_maps_directions_against_the_live_side() {
    let mut state = live_state();
    let forward = 64;
    let outcome = state.replay(&frame(recorded_player(0, forward), recorded_player(0, forward), 0), false);
    // Player one stands on the left: forward is 'd'. Player two stands on
    // the right: forward is '3'.
    assert_eq!(outcome.p1.unwrap(), vec![KeyEvent::Down(b'd')]);
    assert_eq!(outcome.p2.unwrap(), vec![KeyEvent::Down(b'3')]);
}

#[test]
fn replay_releases_and_presses_on_side_change() {
    let mut state = live_state();
    let forward = 64;
    let first = state.replay(&frame(recorded_player(0, forward), recorded_player(0, 32), 0), false);
    assert_eq!(first.p1.unwrap(), vec![KeyEvent::Down(b'd')]);

    // The players cross: player one now stands on the right, so forward
    // becomes 'a'; the stale 'd' is released first.
    state.players.0.facing = Some(Facing::Right);
    let crossed = state.replay(&frame(recorded_player(0, forward), recorded_player(0, 32), 1), false);
    assert_eq!(crossed.p1.unwrap(), vec![KeyEvent::Up(b'd'), KeyEvent::Down(b'a')]);
}

#[test]
fn reversed_replay_equals_swapped_replay() {
    let one = 512;
    let two_plus_three = 3072;
    let forward = 64;
    let down = 4;
    let frames = [
        (recorded_player(one, forward), recorded_player(0, down)),
        (recorded_player(one, down), recorded_player(two_plus_three, 32)),
        (recorded_player(0, 32), recorded_player(two_plus_three, forward)),
    ];

    let mut reversed_state = live_state();
    let mut swapped_state = live_state();
    for (index, (p1, p2)) in frames.iter().enumerate() {
        let reversed = reversed_state.replay(&frame(*p1, *p2, index as u32), true);
        let swapped = swapped_state.replay(&frame(*p2, *p1, index as u32), false);
        assert_eq!(reversed.p1, swapped.p1);
        assert_eq!(reversed.p2, swapped.p2);
    }
    assert_eq!(reversed_state, swapped_state);
}

#[test]
fn replay_reports_missing_recorded_fields() {
    let mut state = live_state();
    let mut no_attack = recorded_player(512, 32);
    no_attack.input_attack = None;
    let outcome = state.replay(&frame(no_attack, recorded_player(512, 32), 0), false);
    assert_eq!(outcome.p1, Err(ReplayError::MissingInput(Player::One, InputField::Attack)));
    // The other player's update still went through.
    assert_eq!(outcome.p2.unwrap(), vec![KeyEvent::Down(b'7')]);

    let mut no_direction = recorded_player(512, 32);
    no_direction.input_direction = None;
    let outcome = state.replay(&frame(recorded_player(512, 32), no_direction, 1), false);
    assert_eq!(outcome.p2, Err(ReplayError::MissingInput(Player::Two, InputField::Direction)));
}

#[test]
fn replay_reports_unknown_encodings() {
    let mut state = live_state();
    let outcome = state.replay(&frame(recorded_player(3, 32), recorded_player(512, 65), 0), false);
    assert_eq!(
        outcome.p1,
        Err(ReplayError::UnknownEncoding(Player::One, InputField::Attack, 3))
    );
    assert_eq!(
        outcome.p2,
        Err(ReplayError::UnknownEncoding(Player::Two, InputField::Direction, 65))
    );
}

#[test]
fn replay_reports_an_unreadable_live_facing() {
    let mut state = GameState::new();
    let outcome = state.replay(&frame(recorded_player(512, 32), recorded_player(512, 32), 0), false);
    assert_eq!(outcome.p1, Err(ReplayError::MissingFacing(Player::One)));
    assert_eq!(outcome.p2, Err(ReplayError::MissingFacing(Player::Two)));
}

#[test]
fn a_failing_player_leaves_their_previous_state_untouched() {
    let mut state = live_state();
    let first = state.replay(&frame(recorded_player(512, 32), recorded_player(512, 32), 0), false);
    assert!(first.p1.is_ok());
    let before = state;

    let mut hole = recorded_player(512, 32);
    hole.input_attack = None;
    let outcome = state.replay(&frame(hole, recorded_player(512, 32), 1), false);
    assert!(outcome.p1.is_err());
    assert_eq!(state.p1_previous_button, before.p1_previous_button);
    assert_eq!(state.p1_previous_direction, before.p1_previous_direction);
    assert_eq!(state.p1_previous_side, before.p1_previous_side);
}
