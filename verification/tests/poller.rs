use prime_trainer::game_state::{GameState, GameStateBuilder};
use prime_trainer::globals::{Facing, Player};
use prime_trainer::snapshot::{FrameReads, PlayerReads};

fn empty_player_reads_ticks() -> PlayerReads {
    PlayerReads {
        x_bits: None,
        y_bits: None,
        z_bits: None,
        input_attack: None,
        input_direction: None,
        damage_received: None,
        facing: None,
        character_id: None,
    }
}

fn reads_ticks(round: Option<u8>, round_frame: Option<u32>, at: u64) -> FrameReads {
    FrameReads {
        round,
        round_frame,
        captured_at_ms: at,
        players: (empty_player_reads_ticks(), empty_player_reads_ticks()),
    }
}

#[test]
fn fresh_state_has_nothing_observed() {
    let state = GameState::new();
    assert_eq!(state.round(), None);
    assert_eq!(state.round_frame_count(), None);
    assert_eq!(state.round_frame_count_previous(), None);
    assert_eq!(state.character_id(Player::One), None);
    assert_eq!(state.character_id(Player::Two), None);
}

#[test]
fn builder_builds_the_initial_state() {
    assert_eq!(GameStateBuilder::new().build(), GameState::new());
}

#[test]
fn first_valid_frame_yields_a_snapshot() {
    let mut state = GameState::new();
    let yielded = state.update(&reads_ticks(Some(1), Some(5), 1000));
    let snapshot = yielded.expect("a first observable frame must be yielded");
    assert_eq!(snapshot.round_frame, Some(5));
    assert_eq!(snapshot.round_frame_previous, None);
    assert_eq!(snapshot.round, Some(1));
    assert_eq!(snapshot.captured_at_ms, 1000);
    assert_eq!(state.round_frame_count(), Some(5));
}

#[test]
fn same_frame_twice_yields_nothing() {
    let mut state = GameState::new();
    assert!(state.update(&reads_ticks(Some(1), Some(5), 1000)).is_some());
    assert!(state.update(&reads_ticks(Some(1), Some(5), 1008)).is_none());
    assert!(state.update(&reads_ticks(Some(1), Some(5), 1016)).is_none());
    assert_eq!(state.round_frame_count(), Some(5));
}

#[test]
fn failed_frame_read_never_counts_as_a_new_frame() {
    let mut state = GameState::new();
    assert!(state.update(&reads_ticks(Some(1), Some(5), 1000)).is_some());
    // The counter read fails for one tick, then returns the same value:
    // neither tick may yield, or the same frame would be captured twice.
    assert!(state.update(&reads_ticks(Some(1), None, 1008)).is_none());
    assert!(state.update(&reads_ticks(Some(1), Some(5), 1016)).is_none());
    assert_eq!(state.round_frame_count(), Some(5));
}

#[test]
fn advancing_frame_yields_with_previous_counter() {
    let mut state = GameState::new();
    assert!(state.update(&reads_ticks(Some(1), Some(5), 1000)).is_some());
    let snapshot = state.update(&reads_ticks(Some(1), Some(6), 1008)).unwrap();
    assert_eq!(snapshot.round_frame, Some(6));
    assert_eq!(snapshot.round_frame_previous, Some(5));
    assert_eq!(state.round_frame_count(), Some(6));
    assert_eq!(state.round_frame_count_previous(), Some(5));
}

#[test]
fn no_two_consecutive_yields_share_a_frame() {
    let mut state = GameState::new();
    let inputs = [
        Some(3),
        Some(3),
        None,
        Some(3),
        Some(4),
        Some(4),
        Some(7),
        None,
        Some(7),
        Some(2),
    ];
    let mut yielded = Vec::new();
    for (tick, frame) in inputs.into_iter().enumerate() {
        if let Some(snapshot) = state.update(&reads_ticks(Some(1), frame, tick as u64 * 8)) {
            yielded.push(snapshot.round_frame);
        }
    }
    assert_eq!(yielded, vec![Some(3), Some(4), Some(7), Some(2)]);
    for pair in yielded.windows(2) {
        assert_ne!(pair[0], pair[1]);
    }
}

#[test]
fn player_fields_are_decoded_on_advance() {
    let mut state = GameState::new();
    let mut tick = reads_ticks(Some(2), Some(9), 500);
    tick.players.0 = PlayerReads {
        x_bits: Some(0x3F800000),
        y_bits: Some(0),
        z_bits: None,
        input_attack: Some(512),
        input_direction: Some(64),
        damage_received: Some(10),
        facing: Some(0),
        character_id: Some(11),
    };
    tick.players.1.facing = Some(1);
    tick.players.1.character_id = Some(54);
    let snapshot = state.update(&tick).unwrap();
    assert_eq!(snapshot.players.0.x_bits, Some(0x3F800000));
    assert_eq!(snapshot.players.0.input_attack, Some(512));
    assert_eq!(snapshot.players.0.facing, Some(Facing::Left));
    assert_eq!(snapshot.players.1.facing, Some(Facing::Right));
    assert_eq!(state.character_id(Player::One), Some(11));
    assert_eq!(state.character_id(Player::Two), Some(54));
}

#[test]
fn out_of_range_facing_becomes_a_hole() {
    let mut state = GameState::new();
    let mut tick = reads_ticks(Some(1), Some(1), 0);
    tick.players.0.facing = Some(2);
    let snapshot = state.update(&tick).unwrap();
    assert_eq!(snapshot.players.0.facing, None);
}
