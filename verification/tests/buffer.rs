use prime_trainer::round_buffer::RoundBuffer;
use prime_trainer::snapshot::{FrameSnapshot, PlayerSnapshot};

fn empty_player_frames() -> PlayerSnapshot {
    PlayerSnapshot {
        x_bits: None,
        y_bits: None,
        z_bits: None,
        input_attack: None,
        input_direction: None,
        damage_received: None,
        facing: None,
        character_id: None,
    }
}

fn snapshot(round_frame: u32, round_frame_previous: Option<u32>) -> FrameSnapshot {
    FrameSnapshot {
        round: Some(1),
        round_frame: Some(round_frame),
        round_frame_previous,
        captured_at_ms: round_frame as u64 * 8,
        players: (empty_player_frames(), empty_player_frames()),
    }
}

#[test]
fn increasing_frames_accumulate_without_flushing() {
    let mut buffer = RoundBuffer::new();
    let mut previous = None;
    for frame in [1, 2, 5, 9] {
        buffer.push(snapshot(frame, previous));
        assert_eq!(buffer.maybe_flush(), None);
        previous = Some(frame);
    }
    assert_eq!(buffer.frames().len(), 4);
}

#[test]
fn one_boundary_flushes_exactly_the_round_and_keeps_the_boundary() {
    let mut buffer = RoundBuffer::new();
    let mut previous = None;
    let round: Vec<FrameSnapshot> = (1..=5).map(|frame| {
        let s = snapshot(frame, previous);
        previous = Some(frame);
        s
    }).collect();
    for s in &round {
        buffer.push(*s);
        assert_eq!(buffer.maybe_flush(), None);
    }
    let boundary = snapshot(1, Some(5));
    buffer.push(boundary);
    let recording = buffer.maybe_flush().expect("a decreasing frame counter must flush");
    assert_eq!(recording.frames, round);
    assert_eq!(recording.frames.len(), 5);
    assert_eq!(buffer.frames().as_slice(), &[boundary]);
    // The flush happened exactly once: nothing further is owed.
    assert_eq!(buffer.maybe_flush(), None);
}

#[test]
fn round_advance_from_frame_118_to_3_keeps_the_new_rounds_first_frame() {
    let mut buffer = RoundBuffer::new();
    let first = snapshot(117, Some(116));
    let second = snapshot(118, Some(117));
    buffer.push(first);
    assert_eq!(buffer.maybe_flush(), None);
    buffer.push(second);
    assert_eq!(buffer.maybe_flush(), None);
    let next_round = snapshot(3, Some(118));
    buffer.push(next_round);
    let recording = buffer.maybe_flush().unwrap();
    assert_eq!(recording.frames, vec![first, second]);
    assert!(recording.frames.iter().all(|s| s.round_frame != Some(3)));
    assert_eq!(buffer.frames().as_slice(), &[next_round]);
}

#[test]
fn missing_counters_never_signal_a_boundary() {
    let mut buffer = RoundBuffer::new();
    let mut hole = snapshot(4, None);
    hole.round_frame_previous = None;
    buffer.push(hole);
    assert_eq!(buffer.maybe_flush(), None);
    let mut unreadable = snapshot(0, Some(9));
    unreadable.round_frame = None;
    buffer.push(unreadable);
    assert_eq!(buffer.maybe_flush(), None);
    assert_eq!(buffer.frames().len(), 2);
}
