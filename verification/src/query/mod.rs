//! Models of the queries for Neos' API.

use crate::model::UserSession;
use vstd::prelude::*;
use vstd::std_specs::convert::FromSpecImpl;
use vstd::string::*;

mod friends;
mod groups;
mod messages;
mod sessions;
mod stats;
mod testing;
mod user_sessions;
mod users;

pub use friends::{Friends, RemoveFriend};
pub use groups::GroupInfo;
pub use messages::Messages;
pub use sessions::{SessionInfo, Sessions};
pub use stats::{OnlineInstanceCount, OnlineUserCount};
pub use testing::Ping;
pub use user_sessions::{
    DestroyUserSession, ExtendUserSession, LoginCredentials, LoginCredentialsIdentifier,
};
pub use users::{UserIdOrUsername, UserInfo, UserSearch, UserStatus};

verus! {

/// The base path of the API
pub const API_BASE_URI: &'static str = "https://api.neos.com/api";

/// The method of a query.
#[derive(Debug, Clone, Copy, PartialEq, Eq, Structural)]
pub enum RequestMethod {
    Head,
    Get,
    Post,
    Put,
    Patch,
    Delete,
}

impl RequestMethod {
    /// The same method, as a request carries it.
    pub fn to_method(self) -> (r: crate::http::Method)
        ensures
            r@ == (match self {
                RequestMethod::Head => crate::http::MethodView::Head,
                RequestMethod::Get => crate::http::MethodView::Get,
                RequestMethod::Post => crate::http::MethodView::Post,
                RequestMethod::Put => crate::http::MethodView::Put,
                RequestMethod::Patch => crate::http::MethodView::Patch,
                RequestMethod::Delete => crate::http::MethodView::Delete,
            }),
    {
        match self {
            RequestMethod::Head => crate::http::Method::Head,
            RequestMethod::Get => crate::http::Method::Get,
            RequestMethod::Post => crate::http::Method::Post,
            RequestMethod::Put => crate::http::Method::Put,
            RequestMethod::Patch => crate::http::Method::Patch,
            RequestMethod::Delete => crate::http::Method::Delete,
        }
    }
}

/// The state that a query without authentication needs: none.
///
/// Even unauthenticated requests to Neos' API should take rate limits
/// into account, thus this is a type of its own.
pub struct NoAuthentication {}

/// The state that a query with authentication needs.
#[derive(Clone, PartialEq, Eq)]
pub struct Authentication {
    /// The secret authentication token
    pub token: String,
    /// The user that the authentication token is for
    pub user_id: crate::id::User,
}

impl Authentication {
    /// The description that is safe to log: the token is masked.
    pub open spec fn description(&self) -> Seq<char> {
        "Authentication { token: *****, user_id: "@ + self.user_id@ + " }"@
    }

    /// Describes the authentication for logs, with the token masked.
    pub fn redacted(&self) -> (r: String)
        ensures
            r@ == self.description(),
    {
        let mut r = String::from_str("Authentication { token: *****, user_id: ");
        r.append(self.user_id.as_ref());
        r.append(" }");
        r
    }
}

impl From<&UserSession> for Authentication {
    fn from(user_session: &UserSession) -> (r: Authentication)
        ensures
            r.token@ == user_session.token@,
            r.user_id@ == user_session.user_id@,
    {
        Authentication { token: user_session.token.clone(), user_id: user_session.user_id.clone() }
    }
}

impl FromSpecImpl<&UserSession> for Authentication {
    open spec fn obeys_from_spec() -> bool {
        false
    }

    open spec fn from_spec(user_session: &UserSession) -> Authentication {
        Authentication { token: user_session.token, user_id: user_session.user_id }
    }
}

} // verus!
