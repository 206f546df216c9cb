use super::{NoAuthentication, API_BASE_URI};
use vstd::prelude::*;
use vstd::string::*;

verus! {

/// Gets details of publicly listed sessions
pub struct Sessions;

impl Sessions {
    pub fn url(&self, _state: &NoAuthentication) -> (r: String)
        ensures
            r@ == API_BASE_URI@ + "/sessions"@,
    {
        let mut r = String::from_str(API_BASE_URI);
        r.append("/sessions");
        r
    }
}

/// Gets details of one session
#[derive(Clone, PartialEq, Eq)]
pub struct SessionInfo {
    /// The ID of the session to query information about
    pub session_id: crate::id::Session,
}

impl SessionInfo {
    /// Creates a new session info query
    pub fn new(session_id: impl Into<crate::id::Session>) -> (r: Self)
        ensures
            call_ensures(Into::<crate::id::Session>::into, (session_id,), r.session_id),
    {
        SessionInfo { session_id: session_id.into() }
    }

    pub fn url(&self, _state: &NoAuthentication) -> (r: String)
        ensures
            r@ == API_BASE_URI@ + "/sessions/"@ + self.session_id@,
    {
        let mut r = String::from_str(API_BASE_URI);
        r.append("/sessions/");
        r.append(self.session_id.as_ref());
        r
    }
}

} // verus!
