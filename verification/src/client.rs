//! What a connected client knows: the local secrets, the session and the
//! version of the game client, with the addresses and headers that
//! requests to the backend are made with.

use crate::auth::{lobby_base, local_base, profile_base, LockfileData, RiotAuth};
use crate::text::joined;
use vstd::prelude::*;
use vstd::string::StringExecFns;

verus! {

/// The version that is sent where the game client did not tell its own.
pub const DEFAULT_CLIENT_VERSION: &'static str = "release-10.03.0";

/// The platform that requests claim to come from.
pub const CLIENT_PLATFORM: &'static str =
    "ew0KCSJwbGF0Zm9ybVR5cGUiOiAiUEMiLA0KCSJwbGF0Zm9ybU9TIjogIldpbmRvd3MiLA0KCSJwbGF0Zm9ybU9TVmVyc2lvbiI6ICIxMC4wLjE5MDQyLjEuMjU2LjY0Yml0IiwNCgkicGxhdGZvcm1DaGlwc2V0IjogIlVua25vd24iDQp9";

/// The state of a connection to the running game client.
pub struct ValorantClient {
    lockfile: LockfileData,
    auth: RiotAuth,
    client_version: String,
}

/// The headers that authorise a request to the backend, name and value.
pub open spec fn header_values(auth: RiotAuth, client_version: Seq<char>) -> Seq<
    (Seq<char>, Seq<char>),
> {
    seq![
        ("Authorization"@, "Bearer "@ + auth.access_token@),
        ("X-Riot-Entitlements-JWT"@, auth.entitlements_token@),
        ("X-Riot-ClientVersion"@, client_version),
        ("X-Riot-ClientPlatform"@, CLIENT_PLATFORM@),
    ]
}

/// The names and values of `headers`.
pub open spec fn headers_view(headers: Seq<(String, String)>) -> Seq<(Seq<char>, Seq<char>)> {
    headers.map_values(|h: (String, String)| (h.0@, h.1@))
}

impl ValorantClient {
    /// The secrets that the connection was made with.
    pub closed spec fn spec_lockfile(&self) -> LockfileData {
        self.lockfile
    }

    /// The present session.
    pub closed spec fn spec_auth(&self) -> RiotAuth {
        self.auth
    }

    /// The version of the game client.
    pub closed spec fn spec_client_version(&self) -> Seq<char> {
        self.client_version@
    }

    /// The base address of the profile-data cluster of the session.
    pub open spec fn spec_pd_url(&self) -> Seq<char> {
        profile_base(self.spec_auth().shard@)
    }

    /// The base address of the lobby-zone cluster of the session.
    pub open spec fn spec_glz_url(&self) -> Seq<char> {
        lobby_base(self.spec_auth().region@, self.spec_auth().shard@)
    }

    /// A connection with the given secrets, session and client version.
    pub fn new(lockfile: LockfileData, auth: RiotAuth, client_version: String) -> (r:
        ValorantClient)
        ensures
            r.spec_lockfile() == lockfile,
            r.spec_auth() == auth,
            r.spec_client_version() == client_version@,
    {
        ValorantClient { lockfile, auth, client_version }
    }

    /// The base address of the local control endpoint.
    pub fn local_url(&self) -> (r: String)
        ensures
            r@ == local_base(self.spec_lockfile().protocol@, self.spec_lockfile().port),
    {
        self.lockfile.local_url()
    }

    /// The base address of the profile-data cluster.
    pub fn pd_url(&self) -> (r: String)
        ensures
            r@ == self.spec_pd_url(),
    {
        self.auth.pd_url()
    }

    /// The base address of the lobby-zone cluster.
    pub fn glz_url(&self) -> (r: String)
        ensures
            r@ == self.spec_glz_url(),
    {
        self.auth.glz_url()
    }

    /// The headers that authorise a request to the backend.
    pub fn auth_headers(&self) -> (r: Vec<(String, String)>)
        ensures
            headers_view(r@) == header_values(self.spec_auth(), self.spec_client_version()),
    {
        let mut headers: Vec<(String, String)> = Vec::new();
        headers.push(
            (String::from_str("Authorization"), joined("Bearer ", self.auth.access_token.as_str())),
        );
        headers.push(
            (String::from_str("X-Riot-Entitlements-JWT"), self.auth.entitlements_token.clone()),
        );
        headers.push((String::from_str("X-Riot-ClientVersion"), self.client_version.clone()));
        headers.push((String::from_str("X-Riot-ClientPlatform"), String::from_str(CLIENT_PLATFORM)));
        assert(headers_view(headers@) =~= header_values(
            self.spec_auth(),
            self.spec_client_version(),
        ));
        headers
    }

    /// The player of the session.
    pub fn puuid(&self) -> (r: String)
        ensures
            r@ == self.spec_auth().puuid@,
    {
        self.auth.puuid.clone()
    }

    /// A copy of the present session: a whole value, which later changes
    /// of the connection do not reach.
    pub fn get_auth(&self) -> (r: RiotAuth)
        ensures
            r == self.spec_auth(),
    {
        self.auth.snapshot()
    }

    /// Replaces the session by `auth`, as a whole; the secrets and the
    /// client version stay.
    pub fn set_auth(&mut self, auth: RiotAuth)
        ensures
            final(self).spec_auth() == auth,
            final(self).spec_lockfile() == old(self).spec_lockfile(),
            final(self).spec_client_version() == old(self).spec_client_version(),
    {
        self.auth = auth;
    }

    /// The secrets that the connection was made with.
    pub fn lockfile(&self) -> (r: &LockfileData)
        ensures
            *r == self.spec_lockfile(),
    {
        &self.lockfile
    }

    /// The version of the game client.
    pub fn version(&self) -> (r: &str)
        ensures
            r@ == self.spec_client_version(),
    {
        self.client_version.as_str()
    }
}

} // verus!
