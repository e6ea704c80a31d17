use vstd::prelude::*;

use crate::game_state::{spec_advances, spec_initial_game_state, spec_run_yields, spec_updated, spec_yielded_snapshot, GameState};
use crate::round_buffer::{spec_buffer_flushed, spec_buffer_pushed, spec_capture_run, spec_empty_buffer, BufferView, RoundBuffer};
use crate::snapshot::{FrameReads, FrameSnapshot, Recording};

verus! {

/// The polling cadence: while the source shows no new frame, the loop
/// re-polls 120 times a second, never tighter.
pub const POLL_INTERVAL_MICROS: u64 = 1000000 / 120;

/// What one capture step tells its caller: whether the source advanced
/// (when it did not, the caller waits one polling interval before the
/// next step), and the recording this step flushed, if its snapshot
/// crossed a round boundary.
pub struct StepOutcome {
    pub advanced: bool,
    pub flushed: Option<Recording>,
}

/// The capture loop's whole state: the sampling state and the buffer of
/// the current round's snapshots.
pub struct LoopState {
    pub state: GameState,
    pub round_frames: RoundBuffer,
}

impl LoopState {
    pub open spec fn wf(&self) -> bool {
        self.round_frames.wf()
    }

    pub fn new() -> (r: LoopState)
        ensures
            r.state == spec_initial_game_state(),
            r.round_frames@ == spec_empty_buffer(),
            r.wf(),
    {
        LoopState { state: GameState::new(), round_frames: RoundBuffer::new() }
    }

    /// One capture iteration over the values the caller read: tick the
    /// poller, append any yielded snapshot, flush if it crossed a round
    /// boundary. A step that did not advance leaves the buffer untouched;
    /// a step that did either accumulates its snapshot or hands out the
    /// finished round and keeps the snapshot as the next round's first
    /// entry.
    pub fn step(&mut self, reads: &FrameReads) -> (r: StepOutcome)
        requires
            old(self).wf(),
        ensures
            final(self).wf(),
            final(self).state == spec_updated(old(self).state, *reads),
            r.advanced == spec_advances(old(self).state, *reads),
            !spec_advances(old(self).state, *reads) ==> r.flushed is None
                && final(self).round_frames@ == old(self).round_frames@,
            spec_advances(old(self).state, *reads) ==> {
                let s = spec_yielded_snapshot(old(self).state, *reads);
                let pushed = spec_buffer_pushed(old(self).round_frames@, s);
                &&& final(self).round_frames@ == spec_buffer_flushed(pushed).0
                &&& (r.flushed matches Some(rec) ==> Some(rec.frames@) == spec_buffer_flushed(
                    pushed,
                ).1)
                &&& (r.flushed is None ==> spec_buffer_flushed(pushed).1 is None)
            },
    {
        match self.state.update(reads) {
            None => StepOutcome { advanced: false, flushed: None },
            Some(snapshot) => {
                self.round_frames.push(snapshot);
                let flushed = self.round_frames.maybe_flush();
                StepOutcome { advanced: true, flushed }
            },
        }
    }
}


/// The capture pipeline at the specification level: a run of capture
/// steps over the values read, returning the final sampling state, the
/// final buffer, and every recording flushed along the way, in order.
pub open spec fn spec_capture_loop(state: GameState, buf: BufferView, reads: Seq<FrameReads>) -> (
    GameState,
    BufferView,
    Seq<Seq<FrameSnapshot>>,
)
    decreases reads.len(),
{
    if reads.len() == 0 {
        (state, buf, Seq::<Seq<FrameSnapshot>>::empty())
    } else {
        let state2 = spec_updated(state, reads[0]);
        let (buf2, out) = if spec_advances(state, reads[0]) {
            spec_buffer_flushed(spec_buffer_pushed(buf, spec_yielded_snapshot(state, reads[0])))
        } else {
            (buf, None)
        };
        let head = match out {
            Some(rec) => seq![rec],
            None => Seq::<Seq<FrameSnapshot>>::empty(),
        };
        let (state3, buf3, rest) = spec_capture_loop(state2, buf2, reads.drop_first());
        (state3, buf3, head + rest)
    }
}

/// Driving the poller and the buffer together is the same as driving the
/// poller alone and pushing every snapshot it yields through the buffer:
/// the capture loop ends with the buffer, and flushes the recordings,
/// that the yielded snapshots alone produce.
pub proof fn lemma_capture_loop_composes(state: GameState, buf: BufferView, reads: Seq<FrameReads>)
    ensures
        spec_capture_loop(state, buf, reads).1 == spec_capture_run(
            buf,
            spec_run_yields(state, reads),
        ).0,
        spec_capture_loop(state, buf, reads).2 == spec_capture_run(
            buf,
            spec_run_yields(state, reads),
        ).1,
    decreases reads.len(),
{
    if reads.len() == 0 {
    } else {
        let state2 = spec_updated(state, reads[0]);
        let rest_yields = spec_run_yields(state2, reads.drop_first());
        if spec_advances(state, reads[0]) {
            let s = spec_yielded_snapshot(state, reads[0]);
            let (buf2, out) = spec_buffer_flushed(spec_buffer_pushed(buf, s));
            lemma_capture_loop_composes(state2, buf2, reads.drop_first());
            assert(spec_run_yields(state, reads) == seq![s] + rest_yields);
            assert((seq![s] + rest_yields)[0] == s);
            assert((seq![s] + rest_yields).drop_first() =~= rest_yields);
        } else {
            lemma_capture_loop_composes(state2, buf, reads.drop_first());
            assert(spec_run_yields(state, reads) == rest_yields);
        }
    }
}

} // verus!
