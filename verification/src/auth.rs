//! The local secrets of the game client, the session obtained with them,
//! and the routing that the access token carries.

use crate::error::{ErrorView, ValorantError};
use crate::json::{json_document, member, text_member, JsonValue, JsonView};
use crate::text::{
    decimal_string, decimal_text, free_of, is_digit, is_whitespace, joined,
    lemma_decimal_text_is_read_back, lemma_split_append, lemma_split_single, lemma_trim_keeps,
    parse_decimal, parse_unsigned, pieces_view, same_text,
    split, split_on, string_of, to_chars, trim, trimmed,
};
use vstd::prelude::*;
use vstd::string::StringExecFns;
use vstd::utf8::encode_utf8;

verus! {

/// What the secrets file of the running client says: where its control
/// endpoint listens, with which password, over which scheme.
#[derive(Debug, Clone)]
pub struct LockfileData {
    pub port: u16,
    pub password: String,
    pub protocol: String,
}

/// `protocol` is one of the two schemes that the control endpoint speaks.
pub open spec fn known_protocol(protocol: Seq<char>) -> bool {
    protocol == "http"@ || protocol == "https"@
}

/// The colon-separated fields of the secrets text, white space at either
/// end set aside.
pub open spec fn lockfile_fields(content: Seq<char>) -> Seq<Seq<char>> {
    split_on(trim(content), ':')
}

/// The five fields `name`, `pid`, `port`, `password` and `protocol`, joined
/// by colons.
pub open spec fn lockfile_text(
    name: Seq<char>,
    pid: Seq<char>,
    port: Seq<char>,
    password: Seq<char>,
    protocol: Seq<char>,
) -> Seq<char> {
    name + seq![':'] + pid + seq![':'] + port + seq![':'] + password + seq![':'] + protocol
}

/// A secrets text written from five fields is read back as they were:
/// where no field holds a colon, the protocol is one of the two known
/// schemes and the text neither begins nor ends with white space, the
/// fields read from the text are the five it was written from, and the
/// third, the decimal writing of `port`, is read as `port`. So `parse`
/// gives exactly `port`, `password` and `protocol`.
pub proof fn law_five_fields_are_read_back(
    name: Seq<char>,
    pid: Seq<char>,
    port: u16,
    password: Seq<char>,
    protocol: Seq<char>,
)
    requires
        free_of(name, ':'),
        free_of(pid, ':'),
        free_of(password, ':'),
        known_protocol(protocol),
        ({
            let text = lockfile_text(name, pid, decimal_text(port as nat), password, protocol);
            !is_whitespace(text[0])
        }),
    ensures
        ({
            let text = lockfile_text(name, pid, decimal_text(port as nat), password, protocol);
            let fields = lockfile_fields(text);
            &&& fields == seq![name, pid, decimal_text(port as nat), password, protocol]
            &&& fields.len() >= 5
            &&& parse_unsigned(fields[2], 0xffff) == Some(port as nat)
            &&& known_protocol(fields[4])
        }),
{
    reveal_strlit("http");
    reveal_strlit("https");
    assert(free_of(protocol, ':'));
    let number = decimal_text(port as nat);
    let text = lockfile_text(name, pid, number, password, protocol);
    lemma_decimal_text_is_read_back(port as nat, 0xffff);
    assert(free_of(number, ':')) by {
        assert forall|i: int| 0 <= i < number.len() implies #[trigger] number[i] != ':' by {
            assert(is_digit(number[i]));
        }
    }
    lemma_trim_keeps(text);
    lemma_split_single(name, ':');
    lemma_split_append(name, ':', pid);
    lemma_split_append(name + seq![':'] + pid, ':', number);
    lemma_split_append(name + seq![':'] + pid + seq![':'] + number, ':', password);
    lemma_split_append(
        name + seq![':'] + pid + seq![':'] + number + seq![':'] + password,
        ':',
        protocol,
    );
    assert(seq![name].push(pid).push(number).push(password).push(protocol) =~= seq![
        name,
        pid,
        number,
        password,
        protocol,
    ]);
}

/// The base address of the local control endpoint.
pub open spec fn local_base(protocol: Seq<char>, port: u16) -> Seq<char> {
    protocol + "://127.0.0.1:"@ + decimal_text(port as nat)
}

impl LockfileData {
    /// The secrets are valid: the protocol is `http` or `https`. Every
    /// port that the type can hold is a port.
    pub open spec fn is_valid(&self) -> bool {
        known_protocol(self.protocol@)
    }

    /// The base address of the local control endpoint that the secrets
    /// name.
    pub fn local_url(&self) -> (r: String)
        ensures
            r@ == local_base(self.protocol@, self.port),
    {
        let port = decimal_string(self.port as u64);
        joined(self.protocol.as_str(), "://127.0.0.1:").concat(port.as_str())
    }

    /// Reads the text of the secrets file: name, pid, port, password and
    /// protocol, separated by colons. The port, the password and the
    /// protocol are the third, fourth and fifth field. A text with fewer
    /// fields, with a third field that writes no port, or with a fifth
    /// that is neither `http` nor `https` is malformed.
    pub fn parse(content: &str) -> (r: Result<LockfileData, ValorantError>)
        ensures
            match r {
                Ok(data) => {
                    let fields = lockfile_fields(content@);
                    &&& fields.len() >= 5
                    &&& parse_unsigned(fields[2], 0xffff) == Some(data.port as nat)
                    &&& data.password@ == fields[3]
                    &&& data.protocol@ == fields[4]
                    &&& (data.protocol@ == "http"@ || data.protocol@ == "https"@)
                    &&& data.is_valid()
                },
                Err(e) => {
                    let fields = lockfile_fields(content@);
                    &&& e@ == ErrorView::LockfileMalformed
                    &&& (fields.len() < 5 || parse_unsigned(fields[2], 0xffff) is None
                        || !known_protocol(fields[4]))
                },
            },
    {
        let chars = to_chars(content);
        let fields = split(&trimmed(&chars), ':');
        if fields.len() < 5 {
            return Err(ValorantError::LockfileMalformed);
        }
        proof {
            assert(pieces_view(fields@)[2] == fields@[2]@);
            assert(pieces_view(fields@)[3] == fields@[3]@);
            assert(pieces_view(fields@)[4] == fields@[4]@);
        }
        let port = match parse_decimal(&fields[2], 0xffff) {
            Some(port) => port as u16,
            None => {
                return Err(ValorantError::LockfileMalformed);
            },
        };
        let protocol = string_of(&fields[4]);
        if !same_text(protocol.as_str(), "http") && !same_text(protocol.as_str(), "https") {
            return Err(ValorantError::LockfileMalformed);
        }
        Ok(LockfileData { port, password: string_of(&fields[3]), protocol })
    }
}

/// Picks the secrets file among the candidate places, given for each, in
/// the order of preference, whether a file exists there: the first that
/// exists.
pub fn select_lockfile(exists: &Vec<bool>) -> (r: Result<usize, ValorantError>)
    ensures
        match r {
            Ok(i) => 0 <= i < exists.len() && exists[i as int] && forall|j: int|
                0 <= j < i ==> !exists[j],
            Err(e) => e@ == ErrorView::LockfileNotFound && forall|j: int|
                0 <= j < exists.len() ==> !exists[j],
        },
{
    let mut i: usize = 0;
    while i < exists.len()
        invariant
            i <= exists.len(),
            forall|j: int| 0 <= j < i ==> !exists[j],
        decreases exists.len() - i,
    {
        if exists[i] {
            return Ok(i);
        }
        i = i + 1;
    }
    Err(ValorantError::LockfileNotFound)
}

/// The text that `str::to_lowercase` gives for `text`.
pub uninterp spec fn lowercase_of(text: Seq<char>) -> Seq<char>;

/// `str::to_lowercase`: the lowercase equivalent of the text, which depends
/// on the text alone.
pub assume_specification[ str::to_lowercase ](text: &str) -> (r: String)
    ensures
        r@ == lowercase_of(text@),
;

/// The shard that the table of regions gives for `code`, a code in lower
/// case: the codes of Europe go to `eu`, those of the Americas to `na`,
/// those of Asia and the Pacific to `ap`; the table holds no other code.
pub open spec fn table_shard(code: Seq<char>) -> Option<Seq<char>> {
    if code == "euw"@ || code == "eune"@ || code == "eu"@ || code == "tr"@ || code == "ru"@ {
        Some("eu"@)
    } else if code == "na"@ || code == "us"@ || code == "br"@ || code == "latam"@ || code
        == "lan"@ || code == "las"@ {
        Some("na"@)
    } else if code == "ap"@ || code == "kr"@ || code == "jp"@ || code == "oce"@ || code
        == "sea"@ {
        Some("ap"@)
    } else {
        None
    }
}

/// The shard that serves the region code `region`, whose lower case is
/// `lower`: that of the table where the table holds `lower`, else
/// `region` itself, unchanged.
pub open spec fn shard_of(region: Seq<char>, lower: Seq<char>) -> Seq<char> {
    match table_shard(lower) {
        Some(shard) => shard,
        None => region,
    }
}

/// The shard that serves the region code `region`, given with its lower
/// case `lower`.
pub fn shard_for_code(region: &str, lower: &str) -> (r: String)
    ensures
        r@ == shard_of(region@, lower@),
{
    if same_text(lower, "euw") || same_text(lower, "eune") || same_text(lower, "eu")
        || same_text(lower, "tr") || same_text(lower, "ru") {
        String::from_str("eu")
    } else if same_text(lower, "na") || same_text(lower, "us") || same_text(lower, "br")
        || same_text(lower, "latam") || same_text(lower, "lan") || same_text(lower, "las") {
        String::from_str("na")
    } else if same_text(lower, "ap") || same_text(lower, "kr") || same_text(lower, "jp")
        || same_text(lower, "oce") || same_text(lower, "sea") {
        String::from_str("ap")
    } else {
        String::from_str(region)
    }
}

/// The shard that serves `region`: the table is searched for the code in
/// lower case; a code that the table does not hold is its own shard, as
/// it was given.
pub fn map_region_to_shard(region: &str) -> (r: String)
    ensures
        r@ == shard_of(region@, lowercase_of(region@)),
{
    let lower = region.to_lowercase();
    shard_for_code(region, lower.as_str())
}

/// The member `inner` of the member `outer` of `doc`.
pub open spec fn nested_member(doc: JsonView, outer: Seq<char>, inner: Seq<char>) -> Option<
    JsonView,
> {
    match member(doc, outer) {
        Some(value) => member(value, inner),
        None => None,
    }
}

/// The claim of the token that names the region: the country of the
/// account where the claims have one, else the member `region`, else the
/// member `shard`.
pub open spec fn region_claim(claims: JsonView) -> Option<JsonView> {
    match nested_member(claims, "acct"@, "country"@) {
        Some(value) => Some(value),
        None => match member(claims, "region"@) {
            Some(value) => Some(value),
            None => member(claims, "shard"@),
        },
    }
}

/// The shard that a claimed region code routes to: the shard that serves
/// the code, and `eu` where that would be empty.
pub open spec fn routed_shard(code: Seq<char>) -> Seq<char> {
    let shard = shard_of(code, lowercase_of(code));
    if shard.len() == 0 {
        "eu"@
    } else {
        shard
    }
}

/// The shard that the claims of a token route to: that of the region claim
/// where it is a string, `eu` where there is none or it is no string.
pub open spec fn routing_of(claims: JsonView) -> Seq<char> {
    match region_claim(claims) {
        Some(JsonView::Text(code)) => routed_shard(code),
        _ => "eu"@,
    }
}

/// Claims never route to an empty shard.
pub proof fn law_routing_is_never_empty(claims: JsonView)
    ensures
        routing_of(claims).len() > 0,
{
    reveal_strlit("eu");
}

/// The shard that the claims of a token route to.
pub fn shard_from_claims(claims: &JsonValue) -> (r: String)
    ensures
        r@ == routing_of(claims@),
        r@.len() > 0,
{
    proof {
        law_routing_is_never_empty(claims@);
    }
    let nested = match claims.get("acct") {
        Some(account) => account.get("country"),
        None => None,
    };
    let claim = match nested {
        Some(value) => Some(value),
        None => match claims.get("region") {
            Some(value) => Some(value),
            None => claims.get("shard"),
        },
    };
    match claim {
        Some(value) => match value.as_str() {
            Some(code) => {
                let shard = map_region_to_shard(code);
                if shard.as_str().is_empty() {
                    String::from_str("eu")
                } else {
                    shard
                }
            },
            None => String::from_str("eu"),
        },
        None => String::from_str("eu"),
    }
}

/// `base64::DecodeError`: why the decoder refused a text; only that it did
/// is used.
#[verifier::external_type_specification]
#[verifier::external_body]
pub struct ExDecodeError(base64::DecodeError);

/// The bytes that the URL-safe, padded base64 text `input` stands for, or
/// none where `input` is no such text.
pub uninterp spec fn url_safe_decoded(input: Seq<u8>) -> Option<Seq<u8>>;

/// `Engine::decode` of the engine `base64::engine::general_purpose::URL_SAFE`:
/// what it returns depends on the input alone, an error where the input
/// is not padded base64 in the URL-safe alphabet.
#[verifier::external_body]
fn url_safe_decode(input: &[u8]) -> (r: Result<Vec<u8>, base64::DecodeError>)
    ensures
        match r {
            Ok(bytes) => url_safe_decoded(input@) == Some(bytes@),
            Err(_) => url_safe_decoded(input@) is None,
        },
{
    base64::Engine::decode(&base64::engine::general_purpose::URL_SAFE, input)
}

/// How many padding characters complete a base64 text of `len` bytes to a
/// multiple of four.
pub open spec fn padding_len(len: nat) -> nat {
    ((4 - len % 4) % 4) as nat
}

/// `segment` with the padding that completes it.
pub open spec fn padded(segment: Seq<char>) -> Seq<char> {
    segment + Seq::new(padding_len(encode_utf8(segment).len()), |i: int| '=')
}

/// The payload segment of a token, padded: the second of the parts that
/// the dots cut the token into, or none where the token has no dot.
pub open spec fn payload_segment(token: Seq<char>) -> Option<Seq<char>> {
    let parts = split_on(token, '.');
    if parts.len() < 2 {
        None
    } else {
        Some(padded(parts[1]))
    }
}

/// The payload segment of `token`, padded for decoding.
pub fn token_payload_segment(token: &str) -> (r: Option<String>)
    ensures
        match r {
            Some(segment) => payload_segment(token@) == Some(segment@),
            None => payload_segment(token@) is None,
        },
{
    let chars = to_chars(token);
    let parts = split(&chars, '.');
    if parts.len() < 2 {
        return None;
    }
    assert(pieces_view(parts@)[1] == parts@[1]@);
    let mut segment = string_of(&parts[1]);
    let len: usize = segment.as_str().as_bytes().len();
    let padding: usize = (4 - len % 4) % 4;
    let ghost bare = segment@;
    let mut added: usize = 0;
    assert(bare + Seq::new(0, |i: int| '=') =~= bare);
    while added < padding
        invariant
            added <= padding,
            segment@ == bare + Seq::new(added as nat, |i: int| '='),
        decreases padding - added,
    {
        segment.push('=');
        assert(segment@ =~= bare + Seq::new((added + 1) as nat, |i: int| '='));
        added = added + 1;
    }
    Some(segment)
}

/// Where a token routes to: the shard of its claims, or the reason why
/// none can be read from it.
pub open spec fn token_routing(token: Seq<char>) -> Result<Seq<char>, Seq<char>> {
    match payload_segment(token) {
        None => Err("invalid token"@),
        Some(segment) => match url_safe_decoded(encode_utf8(segment)) {
            None => Err("decode failed"@),
            Some(payload) => match json_document(payload) {
                None => Err("decode failed"@),
                Some(claims) => Ok(routing_of(claims)),
            },
        },
    }
}

/// A token whose payload segment decodes to the claims `claims` routes by
/// them: by the country of the account where it is a string, by the member
/// `region` or else `shard` where there is no country, and to `eu` where
/// the claims name no region at all. The shard is never empty.
pub proof fn law_token_routes_by_its_claims(token: Seq<char>, payload: Seq<u8>, claims: JsonView)
    requires
        payload_segment(token) matches Some(segment) && url_safe_decoded(encode_utf8(segment))
            == Some(payload),
        json_document(payload) == Some(claims),
    ensures
        token_routing(token) == Ok::<Seq<char>, Seq<char>>(routing_of(claims)),
        nested_member(claims, "acct"@, "country"@) matches Some(JsonView::Text(code))
            ==> routing_of(claims) == routed_shard(code),
        nested_member(claims, "acct"@, "country"@) is None ==> (member(claims, "region"@) matches Some(
            JsonView::Text(code),
        ) ==> routing_of(claims) == routed_shard(code)),
        nested_member(claims, "acct"@, "country"@) is None && member(claims, "region"@) is None ==> (
        member(claims, "shard"@) matches Some(JsonView::Text(code)) ==> routing_of(claims)
            == routed_shard(code)),
        region_claim(claims) is None ==> routing_of(claims) == "eu"@,
        routing_of(claims).len() > 0,
{
    law_routing_is_never_empty(claims);
}

/// The shard and the region that the access token `token` routes to; the
/// two are always the same code.
pub fn parse_region_from_token(token: &str) -> (r: Result<(String, String), ValorantError>)
    ensures
        match r {
            Ok((shard, region)) => token_routing(token@) == Ok::<Seq<char>, Seq<char>>(shard@)
                && region@ == shard@ && shard@.len() > 0 && region@.len() > 0,
            Err(e) => token_routing(token@) matches Err(reason) && e@ == ErrorView::AuthFailed(
                reason,
            ),
        },
{
    let segment = match token_payload_segment(token) {
        Some(segment) => segment,
        None => {
            return Err(ValorantError::AuthFailed(String::from_str("invalid token")));
        },
    };
    let payload = match url_safe_decode(segment.as_str().as_bytes()) {
        Ok(bytes) => bytes,
        Err(_) => {
            return Err(ValorantError::AuthFailed(String::from_str("decode failed")));
        },
    };
    let claims = match JsonValue::parse(payload.as_slice()) {
        Some(claims) => claims,
        None => {
            return Err(ValorantError::AuthFailed(String::from_str("decode failed")));
        },
    };
    let shard = shard_from_claims(&claims);
    let region = shard.clone();
    Ok((shard, region))
}

/// The session with the backend: the two tokens, the player, and the
/// shard and region that serve the player.
#[derive(Debug, Clone)]
pub struct RiotAuth {
    pub access_token: String,
    pub entitlements_token: String,
    pub puuid: String,
    pub shard: String,
    pub region: String,
}

/// What the answer of the local token endpoint gives: the session, or the
/// reason why it holds none.
pub open spec fn session_of(body: JsonView) -> Result<
    (Seq<char>, Seq<char>, Seq<char>, Seq<char>),
    Seq<char>,
> {
    match text_member(body, "accessToken"@) {
        None => Err("missing accessToken"@),
        Some(access) => match text_member(body, "token"@) {
            None => Err("missing token"@),
            Some(entitlements) => match text_member(body, "subject"@) {
                None => Err("missing subject"@),
                Some(subject) => match token_routing(access) {
                    Err(reason) => Err(reason),
                    Ok(shard) => Ok((access, entitlements, subject, shard)),
                },
            },
        },
    }
}

/// The base address of the profile-data cluster of `shard`.
pub open spec fn profile_base(shard: Seq<char>) -> Seq<char> {
    "https://pd."@ + shard + ".a.pvp.net"@
}

/// The base address of the lobby-zone cluster of `region` in `shard`.
pub open spec fn lobby_base(region: Seq<char>, shard: Seq<char>) -> Seq<char> {
    "https://glz-"@ + region + "-1."@ + shard + ".a.pvp.net"@
}

/// The cluster addresses of a session are functions of its shard and
/// region alone: sessions that agree on the two have the same addresses,
/// whatever their tokens and player.
pub proof fn law_cluster_addresses_follow_routing(a: RiotAuth, b: RiotAuth)
    requires
        a.shard@ == b.shard@,
        a.region@ == b.region@,
    ensures
        profile_base(a.shard@) == profile_base(b.shard@),
        lobby_base(a.region@, a.shard@) == lobby_base(b.region@, b.shard@),
{
}

impl RiotAuth {
    /// The session is valid: neither its shard nor its region is empty.
    pub open spec fn is_valid(&self) -> bool {
        self.shard@.len() > 0 && self.region@.len() > 0
    }

    /// The base address of the profile-data cluster that serves the
    /// session.
    pub fn pd_url(&self) -> (r: String)
        ensures
            r@ == profile_base(self.shard@),
    {
        joined("https://pd.", self.shard.as_str()).concat(".a.pvp.net")
    }

    /// The base address of the lobby-zone cluster that serves the session.
    pub fn glz_url(&self) -> (r: String)
        ensures
            r@ == lobby_base(self.region@, self.shard@),
    {
        joined("https://glz-", self.region.as_str()).concat("-1.").concat(
            self.shard.as_str(),
        ).concat(".a.pvp.net")
    }

    /// A copy of the session.
    pub fn snapshot(&self) -> (r: RiotAuth)
        ensures
            r == *self,
    {
        RiotAuth {
            access_token: self.access_token.clone(),
            entitlements_token: self.entitlements_token.clone(),
            puuid: self.puuid.clone(),
            shard: self.shard.clone(),
            region: self.region.clone(),
        }
    }

    /// The session that the answer `body` of the local token endpoint
    /// carries: its access token, entitlements token and subject, and the
    /// routing read from the access token.
    pub fn from_response(body: &JsonValue) -> (r: Result<RiotAuth, ValorantError>)
        ensures
            match r {
                Ok(auth) => session_of(body@) == Ok::<
                    (Seq<char>, Seq<char>, Seq<char>, Seq<char>),
                    Seq<char>,
                >((auth.access_token@, auth.entitlements_token@, auth.puuid@, auth.shard@))
                    && auth.region@ == auth.shard@ && auth.shard@.len() > 0
                    && auth.region@.len() > 0 && auth.is_valid(),
                Err(e) => session_of(body@) matches Err(reason) && e@ == ErrorView::AuthFailed(
                    reason,
                ),
            },
    {
        let access = match body.text_at("accessToken") {
            Some(text) => text,
            None => {
                return Err(ValorantError::AuthFailed(String::from_str("missing accessToken")));
            },
        };
        let entitlements = match body.text_at("token") {
            Some(text) => text,
            None => {
                return Err(ValorantError::AuthFailed(String::from_str("missing token")));
            },
        };
        let subject = match body.text_at("subject") {
            Some(text) => text,
            None => {
                return Err(ValorantError::AuthFailed(String::from_str("missing subject")));
            },
        };
        let (shard, region) = match parse_region_from_token(access) {
            Ok(routing) => routing,
            Err(e) => {
                return Err(e);
            },
        };
        Ok(
            RiotAuth {
                access_token: String::from_str(access),
                entitlements_token: String::from_str(entitlements),
                puuid: String::from_str(subject),
                shard,
                region,
            },
        )
    }
}

} // verus!
