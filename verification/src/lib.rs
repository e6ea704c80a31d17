//! Frame-synchronized capture and replay engine for a two-player,
//! frame-stepped fighting game.
//!
//! The crate decodes raw input bitmasks into symbolic button and direction
//! values, reconstructs per-frame snapshots of both players from values an
//! external memory provider supplies, groups snapshots into round-scoped
//! recordings, and synthesizes the minimal key transitions needed to replay
//! a recorded round. All reading of the live process, key injection and
//! persistence stay outside; this library holds the decisions and proves
//! them.

pub mod codec;
pub mod game_state;
pub mod globals;
pub mod loop_state;
pub mod memory;
pub mod replay;
pub mod round_buffer;
pub mod snapshot;
