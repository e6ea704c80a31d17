use prime_trainer::globals::Facing;
use prime_trainer::snapshot::{
    FrameSnapshot, MatchReplay, PlayerInfo, PlayerReads, PlayerSnapshot, Recording,
};

fn reads_fields(facing: Option<u8>) -> PlayerReads {
    PlayerReads {
        x_bits: Some(1),
        y_bits: Some(2),
        z_bits: Some(3),
        input_attack: Some(512),
        input_direction: Some(64),
        damage_received: Some(9),
        facing,
        character_id: Some(5),
    }
}

fn empty_player_fields() -> PlayerSnapshot {
    PlayerSnapshot {
        x_bits: None,
        y_bits: None,
        z_bits: None,
        input_attack: None,
        input_direction: None,
        damage_received: None,
        facing: None,
        character_id: None,
    }
}

#[test]
fn from_reads_copies_fields_and_decodes_facing() {
    let snapshot = PlayerSnapshot::from_reads(&reads_fields(Some(0)));
    assert_eq!(snapshot.x_bits, Some(1));
    assert_eq!(snapshot.input_attack, Some(512));
    assert_eq!(snapshot.input_direction, Some(64));
    assert_eq!(snapshot.damage_received, Some(9));
    assert_eq!(snapshot.character_id, Some(5));
    assert_eq!(snapshot.facing, Some(Facing::Left));
    assert_eq!(PlayerSnapshot::from_reads(&reads_fields(Some(1))).facing, Some(Facing::Right));
    assert_eq!(PlayerSnapshot::from_reads(&reads_fields(Some(9))).facing, None);
    assert_eq!(PlayerSnapshot::from_reads(&reads_fields(None)).facing, None);
}

#[test]
fn a_failed_read_leaves_a_hole_without_invalidating_the_rest() {
    let mut partial = reads_fields(Some(1));
    partial.x_bits = None;
    partial.damage_received = None;
    let snapshot = PlayerSnapshot::from_reads(&partial);
    assert_eq!(snapshot.x_bits, None);
    assert_eq!(snapshot.damage_received, None);
    assert_eq!(snapshot.input_attack, Some(512));
    assert_eq!(snapshot.facing, Some(Facing::Right));
}

#[test]
fn round_boundary_needs_both_counters_and_a_decrease() {
    let mut snapshot = FrameSnapshot {
        round: Some(1),
        round_frame: Some(3),
        round_frame_previous: Some(118),
        captured_at_ms: 0,
        players: (empty_player_fields(), empty_player_fields()),
    };
    assert!(snapshot.is_round_boundary());
    snapshot.round_frame = Some(119);
    assert!(!snapshot.is_round_boundary());
    snapshot.round_frame = Some(118);
    assert!(!snapshot.is_round_boundary());
    snapshot.round_frame = None;
    assert!(!snapshot.is_round_boundary());
    snapshot.round_frame = Some(3);
    snapshot.round_frame_previous = None;
    assert!(!snapshot.is_round_boundary());
}

#[test]
fn match_replay_hands_out_its_round_in_order() {
    let first = FrameSnapshot {
        round: Some(1),
        round_frame: Some(1),
        round_frame_previous: None,
        captured_at_ms: 0,
        players: (empty_player_fields(), empty_player_fields()),
    };
    let mut second = first;
    second.round_frame = Some(2);
    second.round_frame_previous = Some(1);
    let replay = MatchReplay {
        players: (
            PlayerInfo { screen_name: Some(String::from("left")) },
            PlayerInfo { screen_name: None },
        ),
        round: Recording { frames: vec![first, second] },
    };
    assert_eq!(replay.round_states(), &vec![first, second]);
    assert_eq!(replay.players.0.screen_name(), &Some(String::from("left")));
    assert_eq!(replay.players.1.screen_name(), &None);
}
