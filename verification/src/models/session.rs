//! The live match of a player.

use vstd::prelude::*;

verus! {

/// The match that a player is in.
#[derive(Debug)]
pub struct CoreGamePlayer {
    pub match_id: String,
    pub puuid: String,
}

} // verus!
