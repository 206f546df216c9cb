use super::inner::{ClientView, Dispatch};
use super::{Neos, NeosAuthenticated, NeosUnauthenticated, RequestError};
use crate::clock::WallTime;
use crate::http::{Method, Response};
use vstd::prelude::*;
use vstd::std_specs::convert::FromSpecImpl;

verus! {

/// Any Neos API client
pub enum AnyNeos {
    /// The API client without authentication
    Unauthenticated(NeosUnauthenticated),
    /// The API client with authentication
    Authenticated(NeosAuthenticated),
}

impl From<NeosUnauthenticated> for AnyNeos {
    fn from(api: NeosUnauthenticated) -> (r: AnyNeos)
        ensures
            r == AnyNeos::Unauthenticated(api),
    {
        AnyNeos::Unauthenticated(api)
    }
}

impl FromSpecImpl<NeosUnauthenticated> for AnyNeos {
    open spec fn obeys_from_spec() -> bool {
        true
    }

    open spec fn from_spec(api: NeosUnauthenticated) -> AnyNeos {
        AnyNeos::Unauthenticated(api)
    }
}

impl From<NeosAuthenticated> for AnyNeos {
    fn from(api: NeosAuthenticated) -> (r: AnyNeos)
        ensures
            r == AnyNeos::Authenticated(api),
    {
        AnyNeos::Authenticated(api)
    }
}

impl FromSpecImpl<NeosAuthenticated> for AnyNeos {
    open spec fn obeys_from_spec() -> bool {
        true
    }

    open spec fn from_spec(api: NeosAuthenticated) -> AnyNeos {
        AnyNeos::Authenticated(api)
    }
}

impl AnyNeos {
    /// If the API client instance has been authenticated.
    #[must_use]
    pub fn is_authenticated(&self) -> (r: bool)
        ensures
            r == (self is Authenticated),
    {
        match self {
            AnyNeos::Authenticated(_) => true,
            AnyNeos::Unauthenticated(_) => false,
        }
    }

    /// If the API client instance hasn't been authenticated.
    #[must_use]
    pub fn is_unauthenticated(&self) -> (r: bool)
        ensures
            r == (self is Unauthenticated),
    {
        match self {
            AnyNeos::Authenticated(_) => false,
            AnyNeos::Unauthenticated(_) => true,
        }
    }

    /// Gets the API client instance if it has been authenticated.
    #[must_use]
    pub fn authenticated(&self) -> (r: Option<&NeosAuthenticated>)
        ensures
            match self {
                AnyNeos::Authenticated(api) => r == Some(api),
                AnyNeos::Unauthenticated(_) => r is None,
            },
    {
        match self {
            AnyNeos::Authenticated(api) => Some(api),
            AnyNeos::Unauthenticated(_) => None,
        }
    }

    /// Gets the API client instance if it has not been authenticated.
    #[must_use]
    pub fn unauthenticated(&self) -> (r: Option<&NeosUnauthenticated>)
        ensures
            match self {
                AnyNeos::Authenticated(_) => r is None,
                AnyNeos::Unauthenticated(api) => r == Some(api),
            },
    {
        match self {
            AnyNeos::Authenticated(_) => None,
            AnyNeos::Unauthenticated(api) => Some(api),
        }
    }

    /// Gets the API client instance as mutable if it has been authenticated.
    #[must_use]
    pub fn authenticated_mut(&mut self) -> (r: Option<&mut NeosAuthenticated>)
        ensures
            match r {
                Some(api) => *old(self) == AnyNeos::Authenticated(*api) && *final(self)
                    == AnyNeos::Authenticated(*final(api)),
                None => *old(self) is Unauthenticated && *final(self) == *old(self),
            },
    {
        match self {
            AnyNeos::Authenticated(api) => Some(api),
            AnyNeos::Unauthenticated(_) => None,
        }
    }

    /// Gets the API client instance as mutable if it has not been
    /// authenticated.
    #[must_use]
    pub fn unauthenticated_mut(&mut self) -> (r: Option<&mut NeosUnauthenticated>)
        ensures
            match r {
                Some(api) => *old(self) == AnyNeos::Unauthenticated(*api) && *final(self)
                    == AnyNeos::Unauthenticated(*final(api)),
                None => *old(self) is Authenticated && *final(self) == *old(self),
            },
    {
        match self {
            AnyNeos::Authenticated(_) => None,
            AnyNeos::Unauthenticated(api) => Some(api),
        }
    }
}

/// Use the inner client directly
impl Neos for AnyNeos {
    open spec fn client(&self) -> ClientView {
        match self {
            AnyNeos::Authenticated(api) => api.client(),
            AnyNeos::Unauthenticated(api) => api.client(),
        }
    }

    open spec fn authorization(&self) -> Option<Seq<char>> {
        match self {
            AnyNeos::Authenticated(api) => api.authorization(),
            AnyNeos::Unauthenticated(api) => api.authorization(),
        }
    }

    fn api_request(&mut self, now: u64, method: Method, path: &str) -> (r: Dispatch) {
        match self {
            AnyNeos::Authenticated(api) => api.api_request(now, method, path),
            AnyNeos::Unauthenticated(api) => api.api_request(now, method, path),
        }
    }

    fn handle_response(&mut self, res: Response, now: u64, wall_now: WallTime) -> (r: Result<
        Response,
        RequestError,
    >) {
        match self {
            AnyNeos::Authenticated(api) => api.handle_response(res, now, wall_now),
            AnyNeos::Unauthenticated(api) => api.handle_response(res, now, wall_now),
        }
    }
}

} // verus!
