//! The service of matches in agent select.

use crate::client::ValorantClient;
use vstd::prelude::*;
use vstd::string::StringExecFns;

verus! {

impl ValorantClient {
    /// Where the agent select of the player `puuid` is asked for.
    pub fn pregame_player_url(&self, puuid: &str) -> (r: String)
        ensures
            r@ == self.spec_glz_url() + "/pregame/v1/players/"@ + puuid@,
    {
        self.glz_url().concat("/pregame/v1/players/").concat(puuid)
    }

    /// Where the match in agent select `match_id` is asked for.
    pub fn pregame_match_url(&self, match_id: &str) -> (r: String)
        ensures
            r@ == self.spec_glz_url() + "/pregame/v1/matches/"@ + match_id@,
    {
        self.glz_url().concat("/pregame/v1/matches/").concat(match_id)
    }
}

} // verus!
