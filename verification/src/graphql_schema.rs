//! The operations exposed to the API transport collaborator: the
//! entrypoint-sections query, the whoami identity probe, and the
//! session-token mutations. The transport layer performs the storage fetch
//! and the token work and hands their outcomes in as plain values; mapping
//! this library's errors to transport-level errors is the caller's
//! concern.

use vstd::prelude::*;
use crate::entrypoint::{resolve_sections, resolve_spec};
use crate::errors::{ResolutionError, StorageError};
use crate::model::{RawRecord, fetch_view};
use crate::sdui_section::SDUISection;
use crate::users::{User, user_id_view};

verus! {

/// The root query operations.
pub struct Query;

/// What the whoami probe reports: the requester's identifier and a human
/// readable description of the identity state. The human readable form is
/// meant for testing only; its format is not guaranteed.
#[derive(Clone, Debug, PartialEq, Eq)]
pub struct WhoamiPayload {
    pub id: Option<String>,
    pub human_readable_type: Option<String>,
}

impl Query {
    /// Resolves the ordered sections of one entrypoint for the requesting
    /// identity, from the outcome of the storage fetch for that key.
    pub fn mobile_entrypoint_sections(
        user: &User,
        key: &str,
        fetched: Result<Vec<RawRecord>, StorageError>,
    ) -> (r: Result<Vec<SDUISection>, ResolutionError>)
        ensures
            resolve_spec(*user, key@, fetch_view(fetched)) matches Ok(ss) ==> (r matches Ok(v)
                && v@.map_values(|s: SDUISection| s@) == ss),
            resolve_spec(*user, key@, fetch_view(fetched)) matches Err(e) ==> (r matches Err(d)
                && d@ == e),
    {
        resolve_sections(user, key, fetched)
    }

    /// Reports who the requesting identity is: its identifier, and one of
    /// the three identity states in words.
    pub fn whoami(user: &User) -> (r: WhoamiPayload)
        ensures
            r.id matches Some(id) && id@ == user_id_view(*user),
            *user is AuthorizedUser ==> (r.human_readable_type matches Some(t) && t@
                == "authorized user"@),
            *user is AnonymousUser ==> (r.human_readable_type matches Some(t) && t@
                == "anonymous user"@),
            *user is UnauthorizedUser ==> (r.human_readable_type matches Some(t) && t@
                == "unauthorized (but not anonymous) user"@),
    {
        match user {
            User::AuthorizedUser(id) => WhoamiPayload {
                id: Some(id.clone()),
                human_readable_type: Some(String::from_str("authorized user")),
            },
            User::AnonymousUser(id) => WhoamiPayload {
                id: Some(id.clone()),
                human_readable_type: Some(String::from_str("anonymous user")),
            },
            User::UnauthorizedUser(id) => WhoamiPayload {
                id: Some(id.clone()),
                human_readable_type: Some(String::from_str("unauthorized (but not anonymous) user")),
            },
        }
    }
}

/// The root mutation operations.
pub struct Mutation;

/// What the authorize mutation reports: whether a session was issued, and
/// the opaque session token when it was.
#[derive(Clone, Debug, PartialEq, Eq)]
pub struct AuthorizeMobilePayload {
    pub success: bool,
    pub session_token: Option<String>,
}

/// What the deauthorize mutation reports: whether the session was removed.
#[derive(Clone, Debug, PartialEq, Eq)]
pub struct DeauthorizeMobilePayload {
    pub success: bool,
}

impl Mutation {
    /// Turns the outcome of the session-issuance collaborator into the
    /// authorization payload: a token becomes a success carrying it, a
    /// rejection becomes a failure carrying no token.
    pub fn authorize_mobile(issued: Result<String, String>) -> (r: AuthorizeMobilePayload)
        ensures
            issued matches Ok(token) ==> r.success && (r.session_token matches Some(t) && t
                == token),
            issued is Err ==> (!r.success && r.session_token is None),
    {
        match issued {
            Ok(token) => AuthorizeMobilePayload { success: true, session_token: Some(token) },
            Err(_) => AuthorizeMobilePayload { success: false, session_token: None },
        }
    }

    /// Turns the outcome of the session-removal collaborator into the
    /// deauthorization payload.
    pub fn deauthorize_mobile(removed: Result<(), String>) -> (r: DeauthorizeMobilePayload)
        ensures
            r.success == (removed is Ok),
    {
        match removed {
            Ok(_) => DeauthorizeMobilePayload { success: true },
            Err(_) => DeauthorizeMobilePayload { success: false },
        }
    }
}

} // verus!
