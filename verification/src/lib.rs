//! A pooled-stake lottery round: participants contribute value to a shared
//! pool, a winner drawn from the participant list receives the whole pool,
//! and the round resets in place for the next cycle.

pub mod laws;
pub mod round;

pub use round::{select_winner_index, Lottery, LotteryError, PlayerId, MAX_PLAYERS};
