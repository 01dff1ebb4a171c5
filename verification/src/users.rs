//! The requesting identity: a closed three-state variant, so that
//! visibility rules and resolvers switch on it exhaustively.

use vstd::prelude::*;

verus! {

/// The identity a request is made under, each state carrying the
/// requester's identifier.
#[derive(Clone, Debug, PartialEq, Eq)]
pub enum User {
    AuthorizedUser(String),
    AnonymousUser(String),
    UnauthorizedUser(String),
}

/// The identifier carried by an identity, at the spec level.
pub open spec fn user_id_view(user: User) -> Seq<char> {
    match user {
        User::AuthorizedUser(id) => id@,
        User::AnonymousUser(id) => id@,
        User::UnauthorizedUser(id) => id@,
    }
}

impl User {
    /// The identifier carried by this identity.
    pub fn id(&self) -> (r: &String)
        ensures
            r@ == user_id_view(*self),
    {
        match self {
            User::AuthorizedUser(id) => id,
            User::AnonymousUser(id) => id,
            User::UnauthorizedUser(id) => id,
        }
    }
}

} // verus!
