use prime_trainer::loop_state::LoopState;
use prime_trainer::snapshot::{FrameReads, PlayerReads};

fn empty_player_reads_capture() -> PlayerReads {
    PlayerReads {
        x_bits: None,
        y_bits: None,
        z_bits: None,
        input_attack: None,
        input_direction: None,
        damage_received: None,
        facing: None,
        character_id: None,
    }
}

fn reads_capture(round_frame: Option<u32>, at: u64) -> FrameReads {
    FrameReads {
        round: Some(1),
        round_frame,
        captured_at_ms: at,
        players: (empty_player_reads_capture(), empty_player_reads_capture()),
    }
}

#[test]
fn capture_waits_accumulates_and_flushes_at_the_round_boundary() {
    let mut capture = LoopState::new();

    // Before a match no frame counter is readable: nothing advances.
    let outcome = capture.step(&reads_capture(None, 0));
    assert!(!outcome.advanced);
    assert!(outcome.flushed.is_none());

    // Three distinct frames of one round, with a repeated read in between.
    assert!(capture.step(&reads_capture(Some(10), 8)).advanced);
    assert!(!capture.step(&reads_capture(Some(10), 16)).advanced);
    assert!(capture.step(&reads_capture(Some(11), 24)).advanced);
    assert!(capture.step(&reads_capture(Some(12), 32)).advanced);
    assert_eq!(capture.round_frames.frames().len(), 3);

    // The counter resets: the finished round is flushed, the first frame
    // of the new round stays buffered.
    let outcome = capture.step(&reads_capture(Some(2), 40));
    assert!(outcome.advanced);
    let recording = outcome.flushed.expect("a counter reset must flush the round");
    let flushed_frames: Vec<Option<u32>> =
        recording.frames.iter().map(|s| s.round_frame).collect();
    assert_eq!(flushed_frames, vec![Some(10), Some(11), Some(12)]);
    assert_eq!(capture.round_frames.frames().len(), 1);
    assert_eq!(capture.round_frames.frames()[0].round_frame, Some(2));

    // The next round accumulates on top of the kept boundary frame.
    assert!(capture.step(&reads_capture(Some(3), 48)).advanced);
    assert_eq!(capture.round_frames.frames().len(), 2);
}

#[test]
fn a_step_without_advance_keeps_the_buffer() {
    let mut capture = LoopState::new();
    assert!(capture.step(&reads_capture(Some(4), 0)).advanced);
    let before = capture.round_frames.frames().clone();
    let outcome = capture.step(&reads_capture(Some(4), 8));
    assert!(!outcome.advanced);
    assert!(outcome.flushed.is_none());
    assert_eq!(capture.round_frames.frames(), &before);
}

#[test]
fn polling_cadence_is_a_hundred_twenty_hertz() {
    assert_eq!(prime_trainer::loop_state::POLL_INTERVAL_MICROS, 1_000_000 / 120);
}
