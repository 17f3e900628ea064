//! The service of matches in progress.

use crate::client::ValorantClient;
use crate::error::{ErrorView, ValorantError};
use vstd::prelude::*;
use vstd::string::StringExecFns;

verus! {

/// What the status of an answer about a player's match means: 404 says
/// that the player is in none; any other status lets the body be read.
pub fn player_status(status: u16) -> (r: Result<(), ValorantError>)
    ensures
        match r {
            Ok(_) => status != 404,
            Err(e) => status == 404 && e@ == ErrorView::NotInMatch,
        },
{
    if status == 404 {
        Err(ValorantError::NotInMatch)
    } else {
        Ok(())
    }
}

impl ValorantClient {
    /// Where the match in progress of the player `puuid` is asked for.
    pub fn coregame_player_url(&self, puuid: &str) -> (r: String)
        ensures
            r@ == self.spec_glz_url() + "/core-game/v1/players/"@ + puuid@,
    {
        self.glz_url().concat("/core-game/v1/players/").concat(puuid)
    }

    /// Where the match in progress `match_id` is asked for.
    pub fn coregame_match_url(&self, match_id: &str) -> (r: String)
        ensures
            r@ == self.spec_glz_url() + "/core-game/v1/matches/"@ + match_id@,
    {
        self.glz_url().concat("/core-game/v1/matches/").concat(match_id)
    }

    /// Where the loadouts of the players of the match `match_id` are
    /// asked for.
    pub fn coregame_loadouts_url(&self, match_id: &str) -> (r: String)
        ensures
            r@ == self.spec_glz_url() + "/core-game/v1/matches/"@ + match_id@ + "/loadouts"@,
    {
        self.glz_url().concat("/core-game/v1/matches/").concat(match_id).concat("/loadouts")
    }
}

} // verus!
