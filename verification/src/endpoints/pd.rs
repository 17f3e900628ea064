//! The profile-data service: names, history, match details and ranks.

use crate::auth::lowercase_of;
use crate::client::ValorantClient;
use crate::error::{ErrorView, ValorantError};
use crate::json::{items_of, member, text_member, text_or_empty, values_view, JsonValue, JsonView};
use crate::models::player::{NameEntry, NameEntryView};
use crate::text::{decimal_string, decimal_text, joined};
use vstd::prelude::*;
use vstd::string::StringExecFns;

verus! {

/// What the status of an answer to a plain request means: a status from
/// 200 to 299 lets the body be read, any other is an error that names the
/// path asked for.
pub fn success_status(status: u16, path: &str) -> (r: Result<(), ValorantError>)
    ensures
        match r {
            Ok(_) => 200 <= status < 300,
            Err(e) => !(200 <= status < 300) && e@ == (ErrorView::ApiError {
                status,
                message: path@,
            }),
        },
{
    if 200 <= status && status < 300 {
        Ok(())
    } else {
        Err(ValorantError::ApiError { status, message: String::from_str(path) })
    }
}

/// The text that asks the name service for the player `name` with the tag
/// line `tag`.
pub fn lookup_query(name: &str, tag: &str) -> (r: String)
    ensures
        r@ == name@ + "#"@ + tag@,
{
    joined(name, "#").concat(tag)
}

/// `entry` is the player `name` with the tag line `tag`, the case of the
/// letters set aside.
pub open spec fn is_player(entry: JsonView, name: Seq<char>, tag: Seq<char>) -> bool {
    lowercase_of(text_or_empty(entry, "GameName"@)) == lowercase_of(name) && lowercase_of(
        text_or_empty(entry, "TagLine"@),
    ) == lowercase_of(tag)
}

/// The first of `entries` that is the player `name` with the tag `tag`.
pub open spec fn first_player(entries: Seq<JsonView>, name: Seq<char>, tag: Seq<char>) -> Option<
    JsonView,
>
    decreases entries.len(),
{
    if entries.len() == 0 {
        None
    } else if is_player(entries[0], name, tag) {
        Some(entries[0])
    } else {
        first_player(entries.skip(1), name, tag)
    }
}

/// The player id that the answer `entries` of the name service gives for
/// `name` and `tag`: the subject of the first entry that is the player.
pub open spec fn looked_up(entries: Seq<JsonView>, name: Seq<char>, tag: Seq<char>) -> Option<
    Seq<char>,
> {
    match first_player(entries, name, tag) {
        Some(entry) => text_member(entry, "Subject"@),
        None => None,
    }
}

/// Whether `entry` is the player `name` with the tag line `tag`.
fn entry_is_player(entry: &JsonValue, name: &str, tag: &str) -> (r: bool)
    ensures
        r == is_player(entry@, name@, tag@),
{
    let game_name = entry.text_or_empty("GameName").to_lowercase();
    let tag_line = entry.text_or_empty("TagLine").to_lowercase();
    game_name == name.to_lowercase() && tag_line == tag.to_lowercase()
}

/// The id of the player `name` with the tag line `tag` in the answer
/// `entries` of the name service.
pub fn lookup_player(entries: &Vec<JsonValue>, name: &str, tag: &str) -> (r: Result<
    String,
    ValorantError,
>)
    ensures
        match r {
            Ok(puuid) => looked_up(values_view(entries@), name@, tag@) == Some(puuid@),
            Err(e) => looked_up(values_view(entries@), name@, tag@) is None && e@
                == (ErrorView::ApiError { status: 404, message: "Player not found"@ }),
        },
{
    let ghost all = values_view(entries@);
    let mut i: usize = 0;
    assert(all.skip(0) =~= all);
    while i < entries.len()
        invariant
            i <= entries.len(),
            all == values_view(entries@),
            first_player(all, name@, tag@) == first_player(all.skip(i as int), name@, tag@),
        decreases entries.len() - i,
    {
        assert(all.skip(i as int)[0] == entries@[i as int]@);
        if entry_is_player(&entries[i], name, tag) {
            return match entries[i].text_at("Subject") {
                Some(subject) => Ok(String::from_str(subject)),
                None => Err(
                    ValorantError::ApiError {
                        status: 404,
                        message: String::from_str("Player not found"),
                    },
                ),
            };
        }
        assert(all.skip(i as int).skip(1) =~= all.skip(i + 1));
        i = i + 1;
    }
    Err(ValorantError::ApiError { status: 404, message: String::from_str("Player not found") })
}

/// The name entry that one entry of the name service's answer gives; a
/// part that is missing or no string is empty.
pub open spec fn name_entry_of(entry: JsonView) -> NameEntryView {
    NameEntryView {
        puuid: text_or_empty(entry, "Subject"@),
        name: text_or_empty(entry, "GameName"@),
        tag: text_or_empty(entry, "TagLine"@),
    }
}

/// The names in the answer `entries` of the name service, entry by entry.
pub fn resolve_names(entries: &Vec<JsonValue>) -> (r: Vec<NameEntry>)
    ensures
        r@.len() == entries@.len(),
        forall|i: int| 0 <= i < r@.len() ==> (#[trigger] r@[i])@ == name_entry_of(entries@[i]@),
{
    let mut names: Vec<NameEntry> = Vec::new();
    let mut i: usize = 0;
    while i < entries.len()
        invariant
            i <= entries.len(),
            names@.len() == i,
            forall|j: int| 0 <= j < i ==> (#[trigger] names@[j])@ == name_entry_of(entries@[j]@),
        decreases entries.len() - i,
    {
        let entry = &entries[i];
        names.push(
            NameEntry {
                puuid: String::from_str(entry.text_or_empty("Subject")),
                name: String::from_str(entry.text_or_empty("GameName")),
                tag: String::from_str(entry.text_or_empty("TagLine")),
            },
        );
        i = i + 1;
    }
    names
}

/// The entries of the match history in the answer `body`: the items of
/// its member `History`, none where that is no array.
pub open spec fn history_of(body: JsonView) -> Seq<JsonView> {
    match member(body, "History"@) {
        Some(history) => match items_of(history) {
            Some(items) => items,
            None => Seq::empty(),
        },
        None => Seq::empty(),
    }
}

/// The entries of the match history in the answer `body`.
pub fn match_history(body: &JsonValue) -> (r: &[JsonValue])
    ensures
        values_view(r@) == history_of(body@),
{
    let found = match body.get("History") {
        Some(history) => history.as_array(),
        None => None,
    };
    match found {
        Some(items) => items.as_slice(),
        None => {
            let none: &[JsonValue] = &[];
            assert(values_view(none@) =~= Seq::<JsonView>::empty());
            none
        },
    }
}

impl ValorantClient {
    /// The address of `path` in the profile-data cluster.
    pub fn raw_pd_url(&self, path: &str) -> (r: String)
        ensures
            r@ == self.spec_pd_url() + path@,
    {
        self.pd_url().concat(path)
    }

    /// The address of `path` in the lobby-zone cluster.
    pub fn raw_glz_url(&self, path: &str) -> (r: String)
        ensures
            r@ == self.spec_glz_url() + path@,
    {
        self.glz_url().concat(path)
    }

    /// Where names are resolved.
    pub fn name_service_url(&self) -> (r: String)
        ensures
            r@ == self.spec_pd_url() + "/name-service/v2/players"@,
    {
        self.pd_url().concat("/name-service/v2/players")
    }

    /// Where the last `count` competitive matches of the player `puuid`
    /// are asked for.
    pub fn match_history_url(&self, puuid: &str, count: u32) -> (r: String)
        ensures
            r@ == self.spec_pd_url() + "/match-history/v1/history/"@ + puuid@
                + "?startIndex=0&endIndex="@ + decimal_text(count as nat)
                + "&queue=competitive"@,
    {
        let number = decimal_string(count as u64);
        self.pd_url().concat("/match-history/v1/history/").concat(puuid).concat(
            "?startIndex=0&endIndex=",
        ).concat(number.as_str()).concat("&queue=competitive")
    }

    /// Where the details of the finished match `match_id` are asked for.
    pub fn match_details_url(&self, match_id: &str) -> (r: String)
        ensures
            r@ == self.spec_pd_url() + "/match-details/v1/matches/"@ + match_id@,
    {
        self.pd_url().concat("/match-details/v1/matches/").concat(match_id)
    }

    /// Where the rank of the player `puuid` is asked for.
    pub fn mmr_url(&self, puuid: &str) -> (r: String)
        ensures
            r@ == self.spec_pd_url() + "/mmr/v1/players/"@ + puuid@,
    {
        self.pd_url().concat("/mmr/v1/players/").concat(puuid)
    }

    /// Where `size` places of the competitive leaderboard of the season
    /// `season_id`, from place `start` on, are asked for in the region of
    /// the session.
    pub fn leaderboard_url(&self, season_id: &str, start: u32, size: u32) -> (r: String)
        ensures
            r@ == self.spec_pd_url() + "/mmr/v1/leaderboards/affinity/"@
                + self.spec_auth().region@ + "/queue/competitive/season/"@ + season_id@
                + "?startIndex="@ + decimal_text(start as nat) + "&size="@ + decimal_text(
                size as nat,
            ),
    {
        let region = self.get_auth().region;
        let first = decimal_string(start as u64);
        let count = decimal_string(size as u64);
        self.pd_url().concat("/mmr/v1/leaderboards/affinity/").concat(region.as_str()).concat(
            "/queue/competitive/season/",
        ).concat(season_id).concat("?startIndex=").concat(first.as_str()).concat("&size=").concat(
            count.as_str(),
        )
    }
}

} // verus!
