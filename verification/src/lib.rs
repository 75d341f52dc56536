//! Consensus state machine of a height (propose, prevote and precommit rounds
//! driven by voting power) and the hashing used to commit blocks, agendas and
//! transactions.

pub mod hash;
pub mod types;
pub mod tally;
pub mod state;
pub mod model;
pub mod progress;
pub mod merkle;
pub mod block;
pub mod laws;
