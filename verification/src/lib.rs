//! A two-party, stake-backed duel game built on a commit-reveal protocol.
//!
//! Players escrow equal stakes, commit to hidden moves as hash digests,
//! reveal their moves together with the salts used, and a deterministic
//! resolution rule settles the pot: the winner takes it all, or a draw
//! refunds each player's stake.

use vstd::prelude::*;

pub mod codec;
pub mod game;
pub mod machine;
pub mod resolve;
pub mod settle;

verus! {

} // verus!
