use vstd::prelude::*;

use crate::codec::{InputButton, InputDirection};
use crate::globals::Player;
use crate::snapshot::{
    spec_empty_player_snapshot, spec_player_snapshot_of, FrameReads, FrameSnapshot, PlayerSnapshot,
};

verus! {

/// Mutable sampling state: the poller's memory of the last observed frame
/// counter, the most recent snapshot fields, and the key state the replay
/// synthesizer last emitted for each player.
#[derive(Clone, Copy, Debug, PartialEq)]
pub struct GameState {
    pub round_frame_count: Option<u32>,
    pub round_frame_count_previous: Option<u32>,
    pub round: Option<u8>,
    pub players: (PlayerSnapshot, PlayerSnapshot),
    pub last_update: Option<u64>,
    pub p1_previous_button: Option<InputButton>,
    pub p1_previous_direction: Option<InputDirection>,
    pub p1_previous_side: Option<Player>,
    pub p2_previous_button: Option<InputButton>,
    pub p2_previous_direction: Option<InputDirection>,
    pub p2_previous_side: Option<Player>,
}

pub open spec fn spec_initial_game_state() -> GameState {
    GameState {
        round_frame_count: None,
        round_frame_count_previous: None,
        round: None,
        players: (spec_empty_player_snapshot(), spec_empty_player_snapshot()),
        last_update: None,
        p1_previous_button: None,
        p1_previous_direction: None,
        p1_previous_side: None,
        p2_previous_button: None,
        p2_previous_direction: None,
        p2_previous_side: None,
    }
}

/// A tick advances exactly when the frame counter was readable and differs
/// from the last successfully observed value. A failed read never counts
/// as a new frame.
pub open spec fn spec_advances(pre: GameState, reads: FrameReads) -> bool {
    match reads.round_frame {
        Some(f) => pre.round_frame_count != Some(f),
        None => false,
    }
}

/// The snapshot an advancing tick yields: the fields just read, stamped
/// with the frame observed before this one.
pub open spec fn spec_yielded_snapshot(pre: GameState, reads: FrameReads) -> FrameSnapshot {
    FrameSnapshot {
        round: reads.round,
        round_frame: reads.round_frame,
        round_frame_previous: pre.round_frame_count,
        captured_at_ms: reads.captured_at_ms,
        players: (
            spec_player_snapshot_of(reads.players.0),
            spec_player_snapshot_of(reads.players.1),
        ),
    }
}

/// The sampling state after one tick. A non-advancing tick keeps the
/// observed frame counters and player fields; every tick refreshes the
/// round counter and the sampling time.
pub open spec fn spec_updated(pre: GameState, reads: FrameReads) -> GameState {
    if spec_advances(pre, reads) {
        GameState {
            round_frame_count: reads.round_frame,
            round_frame_count_previous: pre.round_frame_count,
            round: reads.round,
            players: (
                spec_player_snapshot_of(reads.players.0),
                spec_player_snapshot_of(reads.players.1),
            ),
            last_update: Some(reads.captured_at_ms),
            ..pre
        }
    } else {
        GameState { round: reads.round, last_update: Some(reads.captured_at_ms), ..pre }
    }
}

impl GameState {
    pub fn new() -> (r: GameState)
        ensures
            r == spec_initial_game_state(),
    {
        GameState {
            round_frame_count: None,
            round_frame_count_previous: None,
            round: None,
            players: (PlayerSnapshot::empty(), PlayerSnapshot::empty()),
            last_update: None,
            p1_previous_button: None,
            p1_previous_direction: None,
            p1_previous_side: None,
            p2_previous_button: None,
            p2_previous_direction: None,
            p2_previous_side: None,
        }
    }

    pub fn round(&self) -> (r: Option<u8>)
        ensures
            r == self.round,
    {
        self.round
    }

    pub fn round_frame_count(&self) -> (r: Option<u32>)
        ensures
            r == self.round_frame_count,
    {
        self.round_frame_count
    }

    pub fn round_frame_count_previous(&self) -> (r: Option<u32>)
        ensures
            r == self.round_frame_count_previous,
    {
        self.round_frame_count_previous
    }

    pub fn character_id(&self, player: Player) -> (r: Option<u16>)
        ensures
            r == (match player {
                Player::One => self.players.0.character_id,
                Player::Two => self.players.1.character_id,
            }),
    {
        match player {
            Player::One => self.players.0.character_id,
            Player::Two => self.players.1.character_id,
        }
    }

    /// One polling tick over the values the caller read. Yields exactly
    /// one snapshot when the frame counter advanced, nothing otherwise;
    /// the caller is expected to wait one polling interval before the next
    /// tick whenever nothing was yielded.
    pub fn update(&mut self, reads: &FrameReads) -> (r: Option<FrameSnapshot>)
        ensures
            *final(self) == spec_updated(*old(self), *reads),
            spec_advances(*old(self), *reads) ==> r == Some(
                spec_yielded_snapshot(*old(self), *reads),
            ),
            !spec_advances(*old(self), *reads) ==> r is None,
    {
        let advanced: bool = match (reads.round_frame, self.round_frame_count) {
            (Some(f), Some(g)) => f != g,
            (Some(_), None) => true,
            (None, _) => false,
        };
        self.round = reads.round;
        self.last_update = Some(reads.captured_at_ms);
        if advanced {
            let snapshot = FrameSnapshot {
                round: reads.round,
                round_frame: reads.round_frame,
                round_frame_previous: self.round_frame_count,
                captured_at_ms: reads.captured_at_ms,
                players: (
                    PlayerSnapshot::from_reads(&reads.players.0),
                    PlayerSnapshot::from_reads(&reads.players.1),
                ),
            };
            self.round_frame_count_previous = self.round_frame_count;
            self.round_frame_count = reads.round_frame;
            self.players = snapshot.players;
            Some(snapshot)
        } else {
            None
        }
    }
}

/// The snapshots a run of ticks yields, in order.
pub open spec fn spec_run_yields(pre: GameState, reads: Seq<FrameReads>) -> Seq<FrameSnapshot>
    decreases reads.len(),
{
    if reads.len() == 0 {
        Seq::<FrameSnapshot>::empty()
    } else {
        let head = if spec_advances(pre, reads[0]) {
            seq![spec_yielded_snapshot(pre, reads[0])]
        } else {
            Seq::<FrameSnapshot>::empty()
        };
        head + spec_run_yields(spec_updated(pre, reads[0]), reads.drop_first())
    }
}

/// The poller never yields two consecutive snapshots with the same
/// round-frame value: whatever a run of ticks read, each yielded snapshot
/// carries a frame counter different from the one yielded just before it,
/// and different from the frame observed before the run began.
pub proof fn lemma_no_duplicate_frames(pre: GameState, reads: Seq<FrameReads>)
    ensures
        forall|i: int|
            0 <= i < spec_run_yields(pre, reads).len() - 1 ==> (#[trigger] spec_run_yields(
                pre,
                reads,
            )[i]).round_frame != spec_run_yields(pre, reads)[i + 1].round_frame,
        spec_run_yields(pre, reads).len() > 0 ==> spec_run_yields(pre, reads)[0].round_frame
            != pre.round_frame_count,
        spec_run_yields(pre, reads).len() > 0 ==> spec_run_yields(pre, reads)[0].round_frame
            is Some,
    decreases reads.len(),
{
    if reads.len() == 0 {
    } else {
        let ys = spec_run_yields(pre, reads);
        let post = spec_updated(pre, reads[0]);
        let rest = spec_run_yields(post, reads.drop_first());
        lemma_no_duplicate_frames(post, reads.drop_first());
        if spec_advances(pre, reads[0]) {
            let s = spec_yielded_snapshot(pre, reads[0]);
            assert(ys == seq![s] + rest);
            assert(ys[0] == s);
            assert(post.round_frame_count == s.round_frame);
            assert forall|i: int| 0 <= i < ys.len() - 1 implies (#[trigger] ys[i]).round_frame
                != ys[i + 1].round_frame by {
                if i == 0 {
                    assert(rest.len() > 0);
                    assert(ys[1] == rest[0]);
                } else {
                    assert(ys[i] == rest[i - 1]);
                    assert(ys[i + 1] == rest[i]);
                }
            }
        } else {
            assert(post.round_frame_count == pre.round_frame_count);
            assert(ys == rest);
        }
    }
}

/// Step-by-step construction of a fresh sampling state.
pub struct GameStateBuilder {}

impl GameStateBuilder {
    pub fn new() -> (r: GameStateBuilder) {
        GameStateBuilder {  }
    }

    pub fn build(self) -> (r: GameState)
        ensures
            r == spec_initial_game_state(),
    {
        GameState::new()
    }
}

} // verus!
