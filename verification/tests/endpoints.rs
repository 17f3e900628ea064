use val_local_api::auth::{LockfileData, RiotAuth};
use val_local_api::client::{ValorantClient, CLIENT_PLATFORM, DEFAULT_CLIENT_VERSION};
use val_local_api::endpoints::coregame::player_status;
use val_local_api::endpoints::local::{client_version, fetch_client_version, version_or_default};
use val_local_api::endpoints::pd::{
    lookup_player, lookup_query, match_history, resolve_names, success_status,
};
use val_local_api::error::ValorantError;
use val_local_api::json::JsonValue;

fn lockfile() -> LockfileData {
    LockfileData { port: 50123, password: "pw".into(), protocol: "https".into() }
}

fn session() -> RiotAuth {
    RiotAuth {
        access_token: "acc.ess.tok".into(),
        entitlements_token: "ent".into(),
        puuid: "me-1".into(),
        shard: "eu".into(),
        region: "tr".into(),
    }
}

fn client() -> ValorantClient {
    ValorantClient::new(lockfile(), session(), "release-11.00".into())
}

fn doc(text: &str) -> JsonValue {
    JsonValue::parse(text.as_bytes()).unwrap()
}

fn api_error(r: Result<String, ValorantError>) -> (u16, String) {
    match r {
        Err(ValorantError::ApiError { status, message }) => (status, message),
        other => panic!("expected ApiError, got {:?}", other),
    }
}

#[test]
fn client_addresses() {
    let c = client();
    assert_eq!(c.local_url(), "https://127.0.0.1:50123");
    assert_eq!(c.pd_url(), "https://pd.eu.a.pvp.net");
    assert_eq!(c.glz_url(), "https://glz-tr-1.eu.a.pvp.net");
    assert_eq!(c.sessions_url(), "https://127.0.0.1:50123/product-session/v1/external-sessions");
    assert_eq!(c.version(), "release-11.00");
    assert_eq!(c.lockfile().password, "pw");
    assert_eq!(c.puuid(), "me-1");
}

#[test]
fn local_endpoint_addresses() {
    assert_eq!(lockfile().token_url(), "https://127.0.0.1:50123/entitlements/v1/token");
    assert_eq!(
        lockfile().sessions_url(),
        "https://127.0.0.1:50123/product-session/v1/external-sessions"
    );
}

#[test]
fn auth_headers_in_order() {
    let headers = client().auth_headers();
    assert_eq!(headers.len(), 4);
    assert_eq!(headers[0], ("Authorization".to_string(), "Bearer acc.ess.tok".to_string()));
    assert_eq!(headers[1], ("X-Riot-Entitlements-JWT".to_string(), "ent".to_string()));
    assert_eq!(headers[2], ("X-Riot-ClientVersion".to_string(), "release-11.00".to_string()));
    assert_eq!(headers[3], ("X-Riot-ClientPlatform".to_string(), CLIENT_PLATFORM.to_string()));
    assert!(CLIENT_PLATFORM.starts_with("ew0KCSJwbGF0Zm9ybVR5cGUiOiAiUEMi"));
}

#[test]
fn snapshot_does_not_follow_a_later_replacement() {
    let mut c = client();
    let before = c.get_auth();
    let mut next = session();
    next.shard = "na".into();
    next.region = "br".into();
    next.access_token = "new".into();
    c.set_auth(next);
    assert_eq!(before.shard, "eu");
    assert_eq!(before.access_token, "acc.ess.tok");
    let after = c.get_auth();
    assert_eq!(after.shard, "na");
    assert_eq!(after.region, "br");
    assert_eq!(after.access_token, "new");
    assert_eq!(c.pd_url(), "https://pd.na.a.pvp.net");
    assert_eq!(c.glz_url(), "https://glz-br-1.na.a.pvp.net");
    assert_eq!(c.local_url(), "https://127.0.0.1:50123");
    assert_eq!(c.version(), "release-11.00");
}

#[test]
fn coregame_addresses() {
    let c = client();
    assert_eq!(
        c.coregame_player_url("p-1"),
        "https://glz-tr-1.eu.a.pvp.net/core-game/v1/players/p-1"
    );
    assert_eq!(
        c.coregame_match_url("m-1"),
        "https://glz-tr-1.eu.a.pvp.net/core-game/v1/matches/m-1"
    );
    assert_eq!(
        c.coregame_loadouts_url("m-1"),
        "https://glz-tr-1.eu.a.pvp.net/core-game/v1/matches/m-1/loadouts"
    );
}

#[test]
fn pregame_addresses() {
    let c = client();
    assert_eq!(c.pregame_player_url("p-1"), "https://glz-tr-1.eu.a.pvp.net/pregame/v1/players/p-1");
    assert_eq!(c.pregame_match_url("m-1"), "https://glz-tr-1.eu.a.pvp.net/pregame/v1/matches/m-1");
}

#[test]
fn profile_data_addresses() {
    let c = client();
    assert_eq!(c.raw_pd_url("/x/y"), "https://pd.eu.a.pvp.net/x/y");
    assert_eq!(c.raw_glz_url("/x/y"), "https://glz-tr-1.eu.a.pvp.net/x/y");
    assert_eq!(c.name_service_url(), "https://pd.eu.a.pvp.net/name-service/v2/players");
    assert_eq!(
        c.match_history_url("p-1", 20),
        "https://pd.eu.a.pvp.net/match-history/v1/history/p-1?startIndex=0&endIndex=20&queue=competitive"
    );
    assert_eq!(
        c.match_history_url("p-1", 0),
        "https://pd.eu.a.pvp.net/match-history/v1/history/p-1?startIndex=0&endIndex=0&queue=competitive"
    );
    assert_eq!(c.match_details_url("m-9"), "https://pd.eu.a.pvp.net/match-details/v1/matches/m-9");
    assert_eq!(c.mmr_url("p-1"), "https://pd.eu.a.pvp.net/mmr/v1/players/p-1");
    assert_eq!(
        c.leaderboard_url("s-3", 10, 4294967295),
        "https://pd.eu.a.pvp.net/mmr/v1/leaderboards/affinity/tr/queue/competitive/season/s-3?startIndex=10&size=4294967295"
    );
}

#[test]
fn player_status_tells_not_in_match() {
    assert!(matches!(player_status(404), Err(ValorantError::NotInMatch)));
    assert!(player_status(200).is_ok());
    assert!(player_status(500).is_ok());
    assert!(player_status(403).is_ok());
}

#[test]
fn success_status_accepts_the_two_hundreds() {
    assert!(success_status(200, "/p").is_ok());
    assert!(success_status(204, "/p").is_ok());
    assert!(success_status(299, "/p").is_ok());
    for status in [199u16, 300, 404, 500, 0, 65535] {
        match success_status(status, "/some/path") {
            Err(ValorantError::ApiError { status: s, message }) => {
                assert_eq!(s, status);
                assert_eq!(message, "/some/path");
            }
            other => panic!("expected ApiError, got {:?}", other),
        }
    }
}

#[test]
fn lookup_query_joins_name_and_tag() {
    assert_eq!(lookup_query("Player", "EUW"), "Player#EUW");
    assert_eq!(lookup_query("", ""), "#");
}

#[test]
fn lookup_finds_the_player_whatever_the_case() {
    let body = doc(
        r#"[{"GameName":"Other","TagLine":"EUW","Subject":"id-0"},
            {"GameName":"PlayerOne","TagLine":"EUW","Subject":"id-1"},
            {"GameName":"playerone","TagLine":"euw","Subject":"id-2"}]"#,
    );
    let entries = body.as_array().unwrap();
    assert_eq!(lookup_player(entries, "playerONE", "euW").unwrap(), "id-1");
    assert_eq!(lookup_player(entries, "other", "euw").unwrap(), "id-0");
}

#[test]
fn lookup_without_match_is_not_found() {
    let body = doc(r#"[{"GameName":"A","TagLine":"B","Subject":"id"}]"#);
    let entries = body.as_array().unwrap();
    assert_eq!(api_error(lookup_player(entries, "A", "C")), (404, "Player not found".to_string()));
    assert_eq!(
        api_error(lookup_player(&Vec::new(), "A", "B")),
        (404, "Player not found".to_string())
    );
}

#[test]
fn lookup_stops_at_the_first_match_even_without_subject() {
    let body = doc(
        r#"[{"GameName":"A","TagLine":"B"},{"GameName":"A","TagLine":"B","Subject":"id"}]"#,
    );
    let entries = body.as_array().unwrap();
    assert_eq!(api_error(lookup_player(entries, "a", "b")), (404, "Player not found".to_string()));
}

#[test]
fn lookup_treats_missing_names_as_empty() {
    let body = doc(r#"[{"Subject":"nameless"}, 5, {"GameName":7,"TagLine":null,"Subject":"x"}]"#);
    let entries = body.as_array().unwrap();
    assert_eq!(lookup_player(entries, "", "").unwrap(), "nameless");
}

#[test]
fn names_are_resolved_entry_by_entry() {
    let body = doc(
        r#"[{"Subject":"id-1","GameName":"One","TagLine":"EUW"},
            {"Subject":"id-2"},
            "text",
            {"Subject":5,"GameName":"Three","TagLine":"3"}]"#,
    );
    let names = resolve_names(body.as_array().unwrap());
    assert_eq!(names.len(), 4);
    assert_eq!((names[0].puuid.as_str(), names[0].name.as_str(), names[0].tag.as_str()), ("id-1", "One", "EUW"));
    assert_eq!((names[1].puuid.as_str(), names[1].name.as_str(), names[1].tag.as_str()), ("id-2", "", ""));
    assert_eq!((names[2].puuid.as_str(), names[2].name.as_str(), names[2].tag.as_str()), ("", "", ""));
    assert_eq!((names[3].puuid.as_str(), names[3].name.as_str(), names[3].tag.as_str()), ("", "Three", "3"));
    assert!(resolve_names(&Vec::new()).is_empty());
}

#[test]
fn history_entries_are_the_items_of_history() {
    let body = doc(r#"{"Subject":"p","History":[{"MatchID":"a"},{"MatchID":"b"}],"Total":2}"#);
    let items = match_history(&body);
    assert_eq!(items.len(), 2);
    assert_eq!(items[0].text_at("MatchID"), Some("a"));
    assert_eq!(items[1].text_at("MatchID"), Some("b"));
}

#[test]
fn history_that_is_missing_or_no_array_is_empty() {
    assert!(match_history(&doc(r#"{"Subject":"p"}"#)).is_empty());
    assert!(match_history(&doc(r#"{"History":{"a":1}}"#)).is_empty());
    assert!(match_history(&doc(r#"{"History":null}"#)).is_empty());
    assert!(match_history(&doc("[]")).is_empty());
    assert!(match_history(&doc(r#"{"History":[]}"#)).is_empty());
}

#[test]
fn client_version_is_found_in_the_first_session_that_states_one() {
    let body = doc(
        r#"{"b-session":{"version":"release-2"},"a-session":{"version":""},"c-session":{"version":"release-3"}}"#,
    );
    assert_eq!(fetch_client_version(&body).unwrap(), "release-2");
    let one = doc(r#"{"host_app":{"productId":"riot_client"},"valorant":{"version":"release-10.09"}}"#);
    assert_eq!(fetch_client_version(&one).unwrap(), "release-10.09");
}

#[test]
fn client_version_that_is_not_stated_is_an_error() {
    for text in [r#"{}"#, r#"{"s":{"version":""}}"#, r#"{"s":{"version":5}}"#, r#"{"s":"x"}"#, "[]", "null"] {
        assert_eq!(
            api_error(fetch_client_version(&doc(text))),
            (404, "version not found".to_string()),
            "{}",
            text
        );
    }
}

#[test]
fn default_version_replaces_a_failed_search() {
    assert_eq!(version_or_default(Ok("release-1".into())), "release-1");
    assert_eq!(version_or_default(Err(ValorantError::NotInMatch)), "release-10.03.0");
    assert_eq!(DEFAULT_CLIENT_VERSION, "release-10.03.0");
    assert_eq!(version_or_default(fetch_client_version(&doc("{}"))), "release-10.03.0");
}

#[test]
fn client_version_member() {
    assert_eq!(client_version(&doc(r#"{"clientVersion":"release-9"}"#)).unwrap(), "release-9");
    assert_eq!(client_version(&doc(r#"{"clientVersion":""}"#)).unwrap(), "");
    assert_eq!(
        api_error(client_version(&doc(r#"{"clientVersion":9}"#))),
        (404, "Client version not found".to_string())
    );
    assert_eq!(
        api_error(client_version(&doc(r#"{"other":"x"}"#))),
        (404, "Client version not found".to_string())
    );
}
