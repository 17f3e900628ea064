use base64::Engine;
use val_local_api::auth::{
    map_region_to_shard, parse_region_from_token, select_lockfile, shard_for_code,
    shard_from_claims, token_payload_segment, LockfileData, RiotAuth,
};
use val_local_api::error::ValorantError;
use val_local_api::json::JsonValue;

fn token_with_claims(claims: &str) -> String {
    let payload = base64::engine::general_purpose::URL_SAFE_NO_PAD.encode(claims.as_bytes());
    format!("eyJhbGciOiJub25lIn0.{}.signature", payload)
}

fn routing(claims: &str) -> (String, String) {
    parse_region_from_token(&token_with_claims(claims)).unwrap()
}

fn auth_failure(r: Result<(String, String), ValorantError>) -> String {
    match r {
        Err(ValorantError::AuthFailed(reason)) => reason,
        other => panic!("expected AuthFailed, got {:?}", other),
    }
}

#[test]
fn lockfile_fields_are_read_at_their_places() {
    let data = LockfileData::parse("Riot Client:12345:54321:s3cr3t-pw:https").unwrap();
    assert_eq!(data.port, 54321);
    assert_eq!(data.password, "s3cr3t-pw");
    assert_eq!(data.protocol, "https");
}

#[test]
fn lockfile_is_trimmed_before_it_is_split() {
    let data = LockfileData::parse("  \n name:1:80:pw:http \r\n").unwrap();
    assert_eq!(data.port, 80);
    assert_eq!(data.password, "pw");
    assert_eq!(data.protocol, "http");
}

#[test]
fn lockfile_with_more_than_five_fields_uses_the_first_five() {
    let data = LockfileData::parse("n:1:443:pw:https:extra:more").unwrap();
    assert_eq!(data.port, 443);
    assert_eq!(data.password, "pw");
    assert_eq!(data.protocol, "https");
}

#[test]
fn lockfile_with_fewer_than_five_fields_is_malformed() {
    for content in ["", "a", "a:b", "a:b:1", "a:b:1:pw", "   ", "a:b:80:pw "] {
        assert!(matches!(
            LockfileData::parse(content),
            Err(ValorantError::LockfileMalformed)
        ));
    }
}

#[test]
fn lockfile_with_bad_port_is_malformed() {
    for content in [
        "n:1:port:pw:https",
        "n:1::pw:https",
        "n:1:65536:pw:https",
        "n:1:-1:pw:https",
        "n:1: 80:pw:https",
        "n:1:80 :pw:https",
        "n:1:8o:pw:https",
    ] {
        assert!(matches!(
            LockfileData::parse(content),
            Err(ValorantError::LockfileMalformed)
        ));
    }
}

#[test]
fn lockfile_port_limits() {
    assert_eq!(LockfileData::parse("n:1:0:pw:https").unwrap().port, 0);
    assert_eq!(LockfileData::parse("n:1:65535:pw:https").unwrap().port, 65535);
    assert_eq!(LockfileData::parse("n:1:+8080:pw:https").unwrap().port, 8080);
    assert_eq!(LockfileData::parse("n:1:00080:pw:https").unwrap().port, 80);
}

#[test]
fn lockfile_fields_may_be_empty_or_hold_any_text() {
    let data = LockfileData::parse("::1::http").unwrap();
    assert_eq!(data.port, 1);
    assert_eq!(data.password, "");
    assert_eq!(data.protocol, "http");
    let odd = LockfileData::parse("n:1:2:pä ss—w:https").unwrap();
    assert_eq!(odd.password, "pä ss—w");
    assert_eq!(odd.protocol, "https");
}

#[test]
fn lockfile_with_unknown_protocol_is_malformed() {
    for content in [
        "n:1:80:pw:ftp",
        "n:1:80:pw:",
        "n:1:80:pw:HTTPS",
        "n:1:80:pw:Http",
        "n:1:80:pw:httpss",
        "n:1:80:pw: https",
        "n:1:80:pw:ftp:https",
        "::1::",
    ] {
        assert!(
            matches!(LockfileData::parse(content), Err(ValorantError::LockfileMalformed)),
            "{:?}",
            content
        );
    }
    assert_eq!(LockfileData::parse("n:1:80:pw:https \n").unwrap().protocol, "https");
}

#[test]
fn first_existing_lockfile_is_selected() {
    assert_eq!(select_lockfile(&vec![true, true]).unwrap(), 0);
    assert_eq!(select_lockfile(&vec![false, true]).unwrap(), 1);
    assert_eq!(select_lockfile(&vec![false, false, true, true]).unwrap(), 2);
}

#[test]
fn no_existing_lockfile_is_not_found() {
    assert!(matches!(select_lockfile(&vec![]), Err(ValorantError::LockfileNotFound)));
    assert!(matches!(
        select_lockfile(&vec![false, false]),
        Err(ValorantError::LockfileNotFound)
    ));
}

#[test]
fn local_url_is_built_from_protocol_and_port() {
    let data = LockfileData { port: 54321, password: "pw".into(), protocol: "https".into() };
    assert_eq!(data.local_url(), "https://127.0.0.1:54321");
    let plain = LockfileData { port: 0, password: "pw".into(), protocol: "http".into() };
    assert_eq!(plain.local_url(), "http://127.0.0.1:0");
}

#[test]
fn shard_table() {
    for code in ["euw", "eune", "eu", "tr", "ru"] {
        assert_eq!(shard_for_code(code, code), "eu");
        assert_eq!(map_region_to_shard(code), "eu");
    }
    for code in ["na", "us", "br", "latam", "lan", "las"] {
        assert_eq!(shard_for_code(code, code), "na");
        assert_eq!(map_region_to_shard(code), "na");
    }
    for code in ["ap", "kr", "jp", "oce", "sea"] {
        assert_eq!(shard_for_code(code, code), "ap");
        assert_eq!(map_region_to_shard(code), "ap");
    }
}

#[test]
fn table_is_searched_by_the_lower_case() {
    assert_eq!(shard_for_code("TR", "tr"), "eu");
    assert_eq!(shard_for_code("Latam", "latam"), "na");
    assert_eq!(shard_for_code("EU", "EU"), "EU");
}

#[test]
fn unknown_codes_pass_through_unchanged() {
    assert_eq!(shard_for_code("pbe", "pbe"), "pbe");
    assert_eq!(shard_for_code("XYZ", "xyz"), "XYZ");
    assert_eq!(shard_for_code("", ""), "");
    assert_eq!(shard_for_code("euw1", "euw1"), "euw1");
    assert_eq!(map_region_to_shard("XYZ"), "XYZ");
    assert_eq!(map_region_to_shard("PBE"), "PBE");
    assert_eq!(map_region_to_shard("pbe"), "pbe");
    assert_eq!(map_region_to_shard("ÄB"), "ÄB");
    assert_eq!(map_region_to_shard(""), "");
}

#[test]
fn region_is_lowercased_before_the_table() {
    assert_eq!(map_region_to_shard("EUW"), "eu");
    assert_eq!(map_region_to_shard("Na"), "na");
    assert_eq!(map_region_to_shard("KR"), "ap");
    assert_eq!(map_region_to_shard("LATAM"), "na");
}

#[test]
fn token_with_account_country_routes_by_it() {
    let (shard, region) = routing(r#"{"acct":{"country":"na"}}"#);
    assert_eq!(shard, "na");
    assert_eq!(region, "na");
}

#[test]
fn token_with_region_goes_through_the_table() {
    let (shard, region) = routing(r#"{"region":"tr"}"#);
    assert_eq!(shard, "eu");
    assert_eq!(region, "eu");
}

#[test]
fn token_with_shard_member_is_used_last() {
    assert_eq!(routing(r#"{"shard":"kr"}"#).0, "ap");
    assert_eq!(routing(r#"{"shard":"kr","region":"br"}"#).0, "na");
    assert_eq!(routing(r#"{"shard":"kr","region":"br","acct":{"country":"ru"}}"#).0, "eu");
}

#[test]
fn token_without_recognizable_member_routes_to_eu() {
    assert_eq!(routing(r#"{"sub":"player"}"#), ("eu".to_string(), "eu".to_string()));
    assert_eq!(routing("{}").0, "eu");
    assert_eq!(routing("[1,2]").0, "eu");
    assert_eq!(routing(r#""text""#).0, "eu");
    assert_eq!(routing(r#"{"acct":{"name":"x"}}"#).0, "eu");
    assert_eq!(routing(r#"{"acct":"na"}"#).0, "eu");
}

#[test]
fn first_claim_that_is_no_string_routes_to_eu() {
    assert_eq!(routing(r#"{"acct":{"country":7},"region":"na"}"#).0, "eu");
    assert_eq!(routing(r#"{"region":null,"shard":"na"}"#).0, "eu");
}

#[test]
fn unknown_region_passes_through_unchanged() {
    assert_eq!(routing(r#"{"region":"PBE"}"#), ("PBE".to_string(), "PBE".to_string()));
    assert_eq!(routing(r#"{"region":"XyZ"}"#), ("XyZ".to_string(), "XyZ".to_string()));
}

#[test]
fn empty_region_claim_routes_to_eu() {
    assert_eq!(routing(r#"{"region":""}"#), ("eu".to_string(), "eu".to_string()));
    assert_eq!(routing(r#"{"acct":{"country":""},"region":"na"}"#).0, "eu");
    assert_eq!(routing(r#"{"shard":""}"#).0, "eu");
    let doc = JsonValue::parse(br#"{"region":""}"#).unwrap();
    assert_eq!(shard_from_claims(&doc), "eu");
}

#[test]
fn token_with_padded_payload_is_accepted() {
    let claims = r#"{"region": "na"}"#;
    let payload = base64::engine::general_purpose::URL_SAFE.encode(claims.as_bytes());
    assert!(payload.ends_with('='));
    let token = format!("h.{}.s", payload);
    assert_eq!(parse_region_from_token(&token).unwrap().0, "na");
}

#[test]
fn token_with_two_parts_is_enough() {
    let payload = base64::engine::general_purpose::URL_SAFE_NO_PAD.encode(br#"{"region":"jp"}"#);
    assert_eq!(parse_region_from_token(&format!("h.{}", payload)).unwrap().0, "ap");
}

#[test]
fn token_without_dot_is_invalid() {
    assert_eq!(auth_failure(parse_region_from_token("nodots")), "invalid token");
    assert_eq!(auth_failure(parse_region_from_token("")), "invalid token");
}

#[test]
fn token_with_undecodable_payload_fails_to_decode() {
    assert_eq!(auth_failure(parse_region_from_token("a.!!!.c")), "decode failed");
    assert_eq!(auth_failure(parse_region_from_token("a.é.c")), "decode failed");
    assert_eq!(auth_failure(parse_region_from_token("a.ab+/.c")), "decode failed");
}

#[test]
fn token_whose_payload_is_no_json_fails_to_decode() {
    let payload = base64::engine::general_purpose::URL_SAFE_NO_PAD.encode(b"not json");
    assert_eq!(
        auth_failure(parse_region_from_token(&format!("h.{}.s", payload))),
        "decode failed"
    );
    assert_eq!(auth_failure(parse_region_from_token("h..s")), "decode failed");
}

#[test]
fn payload_segment_is_padded_to_a_multiple_of_four() {
    assert_eq!(token_payload_segment("h.abcd.s"), Some("abcd".to_string()));
    assert_eq!(token_payload_segment("h.abc.s"), Some("abc=".to_string()));
    assert_eq!(token_payload_segment("h.ab.s"), Some("ab==".to_string()));
    assert_eq!(token_payload_segment("h.a.s"), Some("a===".to_string()));
    assert_eq!(token_payload_segment("h..s"), Some(String::new()));
    assert_eq!(token_payload_segment("h.abcde"), Some("abcde===".to_string()));
    assert_eq!(token_payload_segment("h"), None);
}

#[test]
fn payload_padding_counts_bytes() {
    assert_eq!(token_payload_segment("h.é.s"), Some("é==".to_string()));
    assert_eq!(token_payload_segment("h.€a.s"), Some("€a".to_string()));
}

#[test]
fn claims_are_probed_in_order() {
    let doc = JsonValue::parse(br#"{"acct":{"country":"OCE"},"region":"na"}"#).unwrap();
    assert_eq!(shard_from_claims(&doc), "ap");
    let flat = JsonValue::parse(br#"{"region":"las"}"#).unwrap();
    assert_eq!(shard_from_claims(&flat), "na");
    assert_eq!(shard_from_claims(&JsonValue::Null), "eu");
}

#[test]
fn session_is_read_from_the_token_answer() {
    let token = token_with_claims(r#"{"acct":{"country":"kr"}}"#);
    let body = format!(
        r#"{{"accessToken":"{}","token":"ent-token","subject":"player-1","issuer":"x"}}"#,
        token
    );
    let auth = RiotAuth::from_response(&JsonValue::parse(body.as_bytes()).unwrap()).unwrap();
    assert_eq!(auth.access_token, token);
    assert_eq!(auth.entitlements_token, "ent-token");
    assert_eq!(auth.puuid, "player-1");
    assert_eq!(auth.shard, "ap");
    assert_eq!(auth.region, "ap");
}

fn session_failure(body: &str) -> String {
    match RiotAuth::from_response(&JsonValue::parse(body.as_bytes()).unwrap()) {
        Err(ValorantError::AuthFailed(reason)) => reason,
        other => panic!("expected AuthFailed, got {:?}", other),
    }
}

#[test]
fn session_answer_without_a_member_fails_with_its_name() {
    assert_eq!(session_failure(r#"{"token":"e","subject":"s"}"#), "missing accessToken");
    assert_eq!(session_failure(r#"{"accessToken":"a.b","subject":"s"}"#), "missing token");
    assert_eq!(session_failure(r#"{"accessToken":"a.b","token":"e"}"#), "missing subject");
    assert_eq!(session_failure(r#"{"accessToken":5,"token":"e","subject":"s"}"#), "missing accessToken");
    assert_eq!(session_failure("[]"), "missing accessToken");
    assert_eq!(session_failure("{}"), "missing accessToken");
}

#[test]
fn session_answer_with_bad_token_fails_as_the_token_does() {
    assert_eq!(
        session_failure(r#"{"accessToken":"nodot","token":"e","subject":"s"}"#),
        "invalid token"
    );
    assert_eq!(
        session_failure(r#"{"accessToken":"a.%%.c","token":"e","subject":"s"}"#),
        "decode failed"
    );
}

fn session(shard: &str, region: &str) -> RiotAuth {
    RiotAuth {
        access_token: "access".into(),
        entitlements_token: "ent".into(),
        puuid: "p".into(),
        shard: shard.into(),
        region: region.into(),
    }
}

#[test]
fn cluster_addresses() {
    let s = session("eu", "eu");
    assert_eq!(s.pd_url(), "https://pd.eu.a.pvp.net");
    assert_eq!(s.glz_url(), "https://glz-eu-1.eu.a.pvp.net");
    let mixed = session("na", "latam");
    assert_eq!(mixed.pd_url(), "https://pd.na.a.pvp.net");
    assert_eq!(mixed.glz_url(), "https://glz-latam-1.na.a.pvp.net");
}

#[test]
fn cluster_addresses_are_the_same_on_every_call() {
    let s = session("ap", "kr");
    assert_eq!(s.pd_url(), s.pd_url());
    assert_eq!(s.glz_url(), s.glz_url());
    let mut other = session("ap", "kr");
    other.access_token = "another".into();
    other.puuid = "q".into();
    assert_eq!(s.pd_url(), other.pd_url());
    assert_eq!(s.glz_url(), other.glz_url());
}

#[test]
fn snapshot_is_a_copy_of_every_field() {
    let s = session("ap", "kr");
    let copy = s.snapshot();
    assert_eq!(copy.access_token, "access");
    assert_eq!(copy.entitlements_token, "ent");
    assert_eq!(copy.puuid, "p");
    assert_eq!(copy.shard, "ap");
    assert_eq!(copy.region, "kr");
}
