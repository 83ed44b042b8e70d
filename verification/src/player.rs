//! The two sample players: one over a whole asset held in memory, one over a
//! window that is refilled while it plays.

pub mod wav;
pub mod wav_streaming;
