//! A threshold multi-signature engine for a token bridge: validators vote on
//! proposals (mint, withdraw, validator changes, pausing), and a proposal's side
//! effect is applied once a supermajority of the current validators has voted.
pub mod types;
pub mod codec;
pub mod token;
pub mod state;
pub mod bridge;
pub mod laws;
