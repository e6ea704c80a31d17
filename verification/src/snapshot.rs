use vstd::prelude::*;

use crate::globals::Facing;

verus! {

/// One player's fields as the memory provider handed them over, each read
/// independently fallible. Coordinates are IEEE 754 bit patterns: the
/// engine carries them through, it never computes with them.
#[derive(Clone, Copy, Debug, PartialEq)]
pub struct PlayerReads {
    pub x_bits: Option<u32>,
    pub y_bits: Option<u32>,
    pub z_bits: Option<u32>,
    pub input_attack: Option<u16>,
    pub input_direction: Option<u16>,
    pub damage_received: Option<u32>,
    pub facing: Option<u8>,
    pub character_id: Option<u16>,
}

/// Everything one polling tick observes of the external source, with the
/// time the caller sampled it at.
#[derive(Clone, Copy, Debug, PartialEq)]
pub struct FrameReads {
    pub round: Option<u8>,
    pub round_frame: Option<u32>,
    pub captured_at_ms: u64,
    pub players: (PlayerReads, PlayerReads),
}

/// One player's share of a frame snapshot. Every field is independently
/// optional: a failed read leaves a hole, it does not invalidate the rest
/// of the snapshot.
#[derive(Clone, Copy, Debug, PartialEq)]
pub struct PlayerSnapshot {
    pub x_bits: Option<u32>,
    pub y_bits: Option<u32>,
    pub z_bits: Option<u32>,
    pub input_attack: Option<u16>,
    pub input_direction: Option<u16>,
    pub damage_received: Option<u32>,
    pub facing: Option<Facing>,
    pub character_id: Option<u16>,
}

/// The facing flag decoded: 0 is the left side, 1 the right, anything else
/// an unusable read.
pub open spec fn spec_facing_of_raw(raw: u8) -> Option<Facing> {
    if raw == 0 {
        Some(Facing::Left)
    } else if raw == 1 {
        Some(Facing::Right)
    } else {
        None
    }
}

pub open spec fn spec_player_snapshot_of(r: PlayerReads) -> PlayerSnapshot {
    PlayerSnapshot {
        x_bits: r.x_bits,
        y_bits: r.y_bits,
        z_bits: r.z_bits,
        input_attack: r.input_attack,
        input_direction: r.input_direction,
        damage_received: r.damage_received,
        facing: match r.facing {
            Some(raw) => spec_facing_of_raw(raw),
            None => None,
        },
        character_id: r.character_id,
    }
}

pub open spec fn spec_empty_player_snapshot() -> PlayerSnapshot {
    PlayerSnapshot {
        x_bits: None,
        y_bits: None,
        z_bits: None,
        input_attack: None,
        input_direction: None,
        damage_received: None,
        facing: None,
        character_id: None,
    }
}

impl PlayerSnapshot {
    /// Decodes one player's raw reads; a facing flag outside its two
    /// defined values becomes a hole like a failed read.
    pub fn from_reads(r: &PlayerReads) -> (s: PlayerSnapshot)
        ensures
            s == spec_player_snapshot_of(*r),
    {
        PlayerSnapshot {
            x_bits: r.x_bits,
            y_bits: r.y_bits,
            z_bits: r.z_bits,
            input_attack: r.input_attack,
            input_direction: r.input_direction,
            damage_received: r.damage_received,
            facing: match r.facing {
                Some(0) => Some(Facing::Left),
                Some(1) => Some(Facing::Right),
                _ => None,
            },
            character_id: r.character_id,
        }
    }

    pub fn empty() -> (s: PlayerSnapshot)
        ensures
            s == spec_empty_player_snapshot(),
    {
        PlayerSnapshot {
            x_bits: None,
            y_bits: None,
            z_bits: None,
            input_attack: None,
            input_direction: None,
            damage_received: None,
            facing: None,
            character_id: None,
        }
    }
}

/// Immutable record of one detected frame: both players' fields, the round
/// and frame counters it was sampled at, and the frame observed before it.
#[derive(Clone, Copy, Debug, PartialEq)]
pub struct FrameSnapshot {
    pub round: Option<u8>,
    pub round_frame: Option<u32>,
    pub round_frame_previous: Option<u32>,
    pub captured_at_ms: u64,
    pub players: (PlayerSnapshot, PlayerSnapshot),
}

impl FrameSnapshot {
    /// Whether this snapshot signals a round boundary: its frame counter
    /// decreased against the previously observed frame. A failed read on
    /// either side never signals a boundary.
    pub open spec fn spec_is_round_boundary(&self) -> bool {
        match (self.round_frame, self.round_frame_previous) {
            (Some(f), Some(p)) => f < p,
            _ => false,
        }
    }

    pub fn is_round_boundary(&self) -> (r: bool)
        ensures
            r == self.spec_is_round_boundary(),
    {
        match (self.round_frame, self.round_frame_previous) {
            (Some(f), Some(p)) => f < p,
            _ => false,
        }
    }
}

/// An ordered sequence of frame snapshots scoped to exactly one round;
/// insertion order is frame order.
#[derive(Clone, Debug, PartialEq)]
pub struct Recording {
    pub frames: Vec<FrameSnapshot>,
}

/// Identity a player carries across rounds.
#[derive(Clone, Debug, PartialEq)]
pub struct PlayerInfo {
    pub screen_name: Option<String>,
}

impl PlayerInfo {
    pub fn screen_name(&self) -> (r: &Option<String>)
        ensures
            r == &self.screen_name,
    {
        &self.screen_name
    }
}

/// The persisted unit a replay is loaded from: both players' identities
/// and one round's snapshots.
#[derive(Debug, PartialEq)]
pub struct MatchReplay {
    pub players: (PlayerInfo, PlayerInfo),
    pub round: Recording,
}

impl MatchReplay {
    pub fn round_states(&self) -> (r: &Vec<FrameSnapshot>)
        ensures
            r == &self.round.frames,
    {
        &self.round.frames
    }
}

} // verus!
