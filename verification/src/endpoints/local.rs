//! The local control endpoint of the game client.

use crate::auth::{local_base, LockfileData};
use crate::client::{ValorantClient, DEFAULT_CLIENT_VERSION};
use crate::error::{ErrorView, ValorantError};
use crate::json::{lemma_object_view, text_member, JsonValue, JsonView};
use vstd::prelude::*;
use vstd::string::StringExecFns;

verus! {

impl LockfileData {
    /// Where the tokens of the session are asked for.
    pub fn token_url(&self) -> (r: String)
        ensures
            r@ == local_base(self.protocol@, self.port) + "/entitlements/v1/token"@,
    {
        self.local_url().concat("/entitlements/v1/token")
    }

    /// Where the sessions of the products that the client runs are listed.
    pub fn sessions_url(&self) -> (r: String)
        ensures
            r@ == local_base(self.protocol@, self.port)
                + "/product-session/v1/external-sessions"@,
    {
        self.local_url().concat("/product-session/v1/external-sessions")
    }
}

impl ValorantClient {
    /// Where the sessions of the products that the client runs are listed.
    pub fn sessions_url(&self) -> (r: String)
        ensures
            r@ == local_base(self.spec_lockfile().protocol@, self.spec_lockfile().port)
                + "/product-session/v1/external-sessions"@,
    {
        self.lockfile().sessions_url()
    }
}

/// The version that one product session states, where it states one that
/// is not empty.
pub open spec fn stated_version(session: JsonView) -> Option<Seq<char>> {
    match text_member(session, "version"@) {
        Some(version) => if version.len() > 0 {
            Some(version)
        } else {
            None
        },
        None => None,
    }
}

/// The version that the first of the sessions `members` to state one
/// states.
pub open spec fn first_stated_version(members: Seq<(Seq<char>, JsonView)>) -> Option<Seq<char>>
    decreases members.len(),
{
    if members.len() == 0 {
        None
    } else {
        match stated_version(members[0].1) {
            Some(version) => Some(version),
            None => first_stated_version(members.skip(1)),
        }
    }
}

/// The version of the game client that the list of product sessions
/// `sessions` gives.
pub open spec fn session_version(sessions: JsonView) -> Option<Seq<char>> {
    match sessions {
        JsonView::Object(members) => first_stated_version(members),
        _ => None,
    }
}

/// The version of the game client according to the list of product
/// sessions: that of the first session, in the order of the object, which
/// states one.
pub fn fetch_client_version(sessions: &JsonValue) -> (r: Result<String, ValorantError>)
    ensures
        match r {
            Ok(version) => session_version(sessions@) == Some(version@),
            Err(e) => session_version(sessions@) is None && e@ == (ErrorView::ApiError {
                status: 404,
                message: "version not found"@,
            }),
        },
{
    match sessions {
        JsonValue::Object(members) => {
            let ghost all = sessions@->Object_0;
            proof {
                lemma_object_view(*members);
                assert(all.skip(0) =~= all);
            }
            let mut i: usize = 0;
            while i < members.len()
                invariant
                    i <= members.len(),
                    sessions@ == JsonView::Object(all),
                    all.len() == members@.len(),
                    forall|j: int|
                        0 <= j < members@.len() ==> #[trigger] all[j] == (
                            members@[j].0@,
                            members@[j].1@,
                        ),
                    first_stated_version(all) == first_stated_version(all.skip(i as int)),
                decreases members.len() - i,
            {
                assert(all.skip(i as int)[0] == all[i as int]);
                match members[i].1.text_at("version") {
                    Some(version) => {
                        if !version.is_empty() {
                            return Ok(String::from_str(version));
                        }
                    },
                    None => {},
                }
                assert(all.skip(i as int).skip(1) =~= all.skip(i + 1));
                i = i + 1;
            }
        },
        _ => {},
    }
    Err(ValorantError::ApiError { status: 404, message: String::from_str("version not found") })
}

/// The version to send: the one that was found, or the default where the
/// search failed.
pub fn version_or_default(found: Result<String, ValorantError>) -> (r: String)
    ensures
        r@ == match found {
            Ok(version) => version@,
            Err(_) => DEFAULT_CLIENT_VERSION@,
        },
{
    match found {
        Ok(version) => version,
        Err(_) => String::from_str(DEFAULT_CLIENT_VERSION),
    }
}

/// The version of the client that the answer `sessions` names in its
/// member `clientVersion`.
pub fn client_version(sessions: &JsonValue) -> (r: Result<String, ValorantError>)
    ensures
        match r {
            Ok(version) => text_member(sessions@, "clientVersion"@) == Some(version@),
            Err(e) => text_member(sessions@, "clientVersion"@) is None && e@
                == (ErrorView::ApiError { status: 404, message: "Client version not found"@ }),
        },
{
    match sessions.text_at("clientVersion") {
        Some(version) => Ok(String::from_str(version)),
        None => Err(
            ValorantError::ApiError {
                status: 404,
                message: String::from_str("Client version not found"),
            },
        ),
    }
}

} // verus!
