//! What the HTTP front end answers: the status and the body for each
//! outcome, and the reading of its parameters.

use crate::auth::RiotAuth;
use crate::error::{error_text, ErrorView, ValorantError};
use crate::json::{members_view, JsonValue, JsonView};
use crate::log_watcher::{LogEvent, LogEventView};
use crate::models::player::NameEntry;
use crate::text::{decimal_string, decimal_text, parse_decimal, parse_unsigned, same_text, to_chars};
use vstd::prelude::*;
use vstd::string::StringExecFns;

verus! {

/// The HTTP status that reports the error `e`.
pub open spec fn status_of(e: ErrorView) -> u16 {
    match e {
        ErrorView::NotInMatch => 404,
        ErrorView::LockfileNotFound => 503,
        ErrorView::AuthFailed(_) => 401,
        _ => 500,
    }
}

/// The HTTP status that reports the error `e`: not found where the player
/// is in no match, unavailable where the client does not run,
/// unauthorized where the handshake failed, a server error otherwise.
pub fn error_status(e: &ValorantError) -> (r: u16)
    ensures
        r == status_of(e@),
{
    match e {
        ValorantError::NotInMatch => 404,
        ValorantError::LockfileNotFound => 503,
        ValorantError::AuthFailed(_) => 401,
        _ => 500,
    }
}

/// The body that reports the error `e`: an object whose member `error` is
/// the sentence of the error.
pub fn error_body(e: &ValorantError) -> (r: JsonValue)
    ensures
        r@ == JsonView::Object(seq![("error"@, JsonView::Text(error_text(e@)))]),
{
    let mut members: Vec<(String, JsonValue)> = Vec::new();
    let sentence = e.message();
    members.push((String::from_str("error"), JsonValue::text(sentence.as_str())));
    assert(members_view(members@) =~= seq![("error"@, JsonView::Text(error_text(e@)))]);
    JsonValue::object(members)
}

/// The body that reports a failed request about the player's match: where
/// the player is in none, the sentence `absent` says so in place of the
/// sentence of the error.
pub fn match_error_body(e: &ValorantError, absent: &str) -> (r: JsonValue)
    ensures
        r@ == JsonView::Object(
            seq![
                (
                    "error"@,
                    JsonView::Text(
                        if e@ is NotInMatch {
                            absent@
                        } else {
                            error_text(e@)
                        },
                    ),
                ),
            ],
        ),
{
    match e {
        ValorantError::NotInMatch => {
            let mut members: Vec<(String, JsonValue)> = Vec::new();
            members.push((String::from_str("error"), JsonValue::text(absent)));
            assert(members_view(members@) =~= seq![("error"@, JsonView::Text(absent@))]);
            JsonValue::object(members)
        },
        _ => error_body(e),
    }
}

/// The phase that the player is in: agent select where a match in agent
/// select was found, in game where a match in progress was found, else
/// the menu.
pub open spec fn phase_of(pregame: bool, coregame: bool) -> Seq<char> {
    if pregame {
        "pregame"@
    } else if coregame {
        "ingame"@
    } else {
        "menu"@
    }
}

/// The body that reports the phase of the player, given whether a match in
/// agent select and whether a match in progress was found.
pub fn status_body(pregame: bool, coregame: bool) -> (r: JsonValue)
    ensures
        r@ == JsonView::Object(
            seq![
                ("phase"@, JsonView::Text(phase_of(pregame, coregame))),
                ("running"@, JsonView::Bool(true)),
            ],
        ),
{
    let phase = if pregame {
        "pregame"
    } else if coregame {
        "ingame"
    } else {
        "menu"
    };
    let mut members: Vec<(String, JsonValue)> = Vec::new();
    members.push((String::from_str("phase"), JsonValue::text(phase)));
    members.push((String::from_str("running"), JsonValue::Bool(true)));
    assert(members_view(members@) =~= seq![
        ("phase"@, JsonView::Text(phase_of(pregame, coregame))),
        ("running"@, JsonView::Bool(true)),
    ]);
    JsonValue::object(members)
}

/// The name and tag line to show for the player: those of the last of the
/// resolved names, empty where none was resolved.
pub open spec fn shown_name(names: Option<Vec<NameEntry>>) -> (Seq<char>, Seq<char>) {
    match names {
        Some(list) => if list@.len() > 0 {
            (list@.last().name@, list@.last().tag@)
        } else {
            (Seq::empty(), Seq::empty())
        },
        None => (Seq::empty(), Seq::empty()),
    }
}

/// The body that describes the session `auth` and the name of its player.
pub fn auth_body(auth: &RiotAuth, names: Option<Vec<NameEntry>>) -> (r: JsonValue)
    ensures
        r@ == JsonView::Object(
            seq![
                ("name"@, JsonView::Text(shown_name(names).0)),
                ("puuid"@, JsonView::Text(auth.puuid@)),
                ("region"@, JsonView::Text(auth.region@)),
                ("shard"@, JsonView::Text(auth.shard@)),
                ("tag"@, JsonView::Text(shown_name(names).1)),
            ],
        ),
{
    let ghost shown = shown_name(names);
    let last = match names {
        Some(mut list) => list.pop(),
        None => None,
    };
    let (name, tag) = match last {
        Some(entry) => (entry.name, entry.tag),
        None => (String::new(), String::new()),
    };
    assert(name@ == shown.0 && tag@ == shown.1);
    let mut members: Vec<(String, JsonValue)> = Vec::new();
    members.push((String::from_str("name"), JsonValue::Text(name)));
    members.push((String::from_str("puuid"), JsonValue::text(auth.puuid.as_str())));
    members.push((String::from_str("region"), JsonValue::text(auth.region.as_str())));
    members.push((String::from_str("shard"), JsonValue::text(auth.shard.as_str())));
    members.push((String::from_str("tag"), JsonValue::Text(tag)));
    assert(members_view(members@) =~= seq![
        ("name"@, JsonView::Text(shown.0)),
        ("puuid"@, JsonView::Text(auth.puuid@)),
        ("region"@, JsonView::Text(auth.region@)),
        ("shard"@, JsonView::Text(auth.shard@)),
        ("tag"@, JsonView::Text(shown.1)),
    ]);
    JsonValue::object(members)
}

/// How many matches of the history to ask for: the number that the
/// parameter writes, 20 where there is none or it writes none, and never
/// more than 100.
pub open spec fn history_count_of(param: Option<Seq<char>>) -> nat {
    let wanted = match param {
        Some(text) => match parse_unsigned(text, 0xffff_ffff) {
            Some(n) => n,
            None => 20,
        },
        None => 20,
    };
    if wanted < 100 {
        wanted
    } else {
        100
    }
}

/// How many matches of the history to ask for, given the parameter
/// `count` of the request.
pub fn history_count(param: Option<&str>) -> (r: u32)
    ensures
        r == history_count_of(
            match param {
                Some(text) => Some(text@),
                None => None,
            },
        ),
{
    let wanted: u64 = match param {
        Some(text) => match parse_decimal(&to_chars(text), 0xffff_ffff) {
            Some(n) => n,
            None => 20,
        },
        None => 20,
    };
    if wanted < 100 {
        wanted as u32
    } else {
        100
    }
}

/// The player whose rank is asked for: the player of the session where
/// the request says `me`, else the player it names.
pub fn mmr_target(target: &str, own: &str) -> (r: String)
    ensures
        r@ == if target@ == "me"@ {
            own@
        } else {
            target@
        },
{
    if same_text(target, "me") {
        String::from_str(own)
    } else {
        String::from_str(target)
    }
}

/// The body that answers a lookup with the player id `puuid`.
pub fn lookup_body(puuid: &str) -> (r: JsonValue)
    ensures
        r@ == JsonView::Object(seq![("puuid"@, JsonView::Text(puuid@))]),
{
    let mut members: Vec<(String, JsonValue)> = Vec::new();
    members.push((String::from_str("puuid"), JsonValue::text(puuid)));
    assert(members_view(members@) =~= seq![("puuid"@, JsonView::Text(puuid@))]);
    JsonValue::object(members)
}

/// The members of the object that tells a subscriber of `event`.
pub open spec fn event_members(event: LogEventView) -> Seq<(Seq<char>, JsonView)> {
    match event {
        LogEventView::RoundEnded { round_num } => seq![
            ("round"@, JsonView::Number(decimal_text(round_num as nat))),
            ("type"@, JsonView::Text("round_ended"@)),
        ],
        LogEventView::MatchEnded { winning_team } => seq![
            ("type"@, JsonView::Text("match_ended"@)),
            ("winning_team"@, JsonView::Text(winning_team)),
        ],
        LogEventView::PlayerDied => seq![("type"@, JsonView::Text("player_died"@))],
        LogEventView::BombInteraction { agent } => seq![
            ("agent"@, JsonView::Text(agent)),
            ("type"@, JsonView::Text("bomb_interaction"@)),
        ],
        LogEventView::GameplayStarted => seq![("type"@, JsonView::Text("gameplay_started"@))],
    }
}

/// The object that tells a subscriber of `event`: its kind under `type`
/// and what it carries.
pub fn event_body(event: &LogEvent) -> (r: JsonValue)
    ensures
        r@ == JsonView::Object(event_members(event@)),
{
    let mut members: Vec<(String, JsonValue)> = Vec::new();
    match event {
        LogEvent::RoundEnded { round_num } => {
            members.push(
                (String::from_str("round"), JsonValue::Number(decimal_string(*round_num as u64))),
            );
            members.push((String::from_str("type"), JsonValue::text("round_ended")));
        },
        LogEvent::MatchEnded { winning_team } => {
            members.push((String::from_str("type"), JsonValue::text("match_ended")));
            members.push(
                (String::from_str("winning_team"), JsonValue::text(winning_team.as_str())),
            );
        },
        LogEvent::PlayerDied => {
            members.push((String::from_str("type"), JsonValue::text("player_died")));
        },
        LogEvent::BombInteraction { agent } => {
            members.push((String::from_str("agent"), JsonValue::text(agent.as_str())));
            members.push((String::from_str("type"), JsonValue::text("bomb_interaction")));
        },
        LogEvent::GameplayStarted => {
            members.push((String::from_str("type"), JsonValue::text("gameplay_started")));
        },
    }
    assert(members_view(members@) =~= event_members(event@));
    JsonValue::object(members)
}

} // verus!
