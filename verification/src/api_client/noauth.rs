use super::inner::{ClientView, Dispatch, NeosApiClient};
use super::{
    is_dispatch_of, lemma_standard_request_is_anonymous, AnyNeos, Neos, NeosAuthenticated,
    RequestError, AUTHORIZATION,
};
use crate::clock::WallTime;
use crate::http::{has_field, Method, MethodView, Response};
use crate::json::object_text;
use crate::model::UserSession;
use crate::query::{LoginCredentials, NoAuthentication};
use vstd::prelude::*;
use vstd::std_specs::convert::FromSpecImpl;
use vstd::string::*;

verus! {

/// Neos API client without authentication
pub struct NeosUnauthenticated {
    inner: NeosApiClient,
}

impl View for NeosUnauthenticated {
    type V = ClientView;

    closed spec fn view(&self) -> ClientView {
        self.inner@
    }
}

impl Neos for NeosUnauthenticated {
    open spec fn client(&self) -> ClientView {
        self@
    }

    /// None: this client has no credentials to attach.
    open spec fn authorization(&self) -> Option<Seq<char>> {
        None
    }

    fn api_request(&mut self, now: u64, method: Method, path: &str) -> (r: Dispatch) {
        self.inner.basic_api_request(now, method, path)
    }

    fn handle_response(&mut self, res: Response, now: u64, wall_now: WallTime) -> (r: Result<
        Response,
        RequestError,
    >) {
        self.inner.handle_response(res, now, wall_now)
    }
}

impl NeosUnauthenticated {
    /// Creates a new unauthenticated Neos API client instance
    #[must_use]
    pub fn new(user_agent: String) -> (r: Self)
        ensures
            r@ == (ClientView {
                user_agent: user_agent@,
                last_request_time: None,
                blocked_until: None,
            }),
    {
        NeosUnauthenticated { inner: NeosApiClient::new(user_agent) }
    }

    /// Asks to send a login request at the time `now`. The answer is to
    /// wait, or the request that carries the credentials as its body, or,
    /// exactly where the request has been let through and the body cannot
    /// be written, an error.
    pub fn login(&mut self, now: u64, login_credentials: &LoginCredentials) -> (r: Result<
        Dispatch,
        RequestError,
    >)
        ensures
            final(self)@ == old(self)@.after_request(now),
            match r {
                Ok(Dispatch::Wait(nanos)) => nanos > 0 && nanos == old(self)@.wait(now),
                Ok(Dispatch::Send(request)) => old(self)@.wait(now) == 0 && (object_text(
                    login_credentials.body_members(),
                ) matches Some(body) && request@ == old(self)@.request(
                    MethodView::Post,
                    "userSessions"@,
                ).with_json(body)),
                Err(error) => old(self)@.wait(now) == 0 && error is Other && object_text(
                    login_credentials.body_members(),
                ) is None,
            },
    {
        match self.api_request(now, Method::Post, "userSessions") {
            Dispatch::Wait(nanos) => Ok(Dispatch::Wait(nanos)),
            Dispatch::Send(request) => {
                let built = match login_credentials.body(&NoAuthentication {  }) {
                    Some(Ok(body)) => Ok(request.with_json(body)),
                    Some(Err(why)) => Err(why),
                    None => Err(String::new()),
                };
                Dispatch::customized(built)
            },
        }
    }

    /// Ends a login: with the session that the server sent, the client
    /// becomes an authenticated one; with an error, the client comes back
    /// as it was, together with the error.
    pub fn finish_login(self, outcome: Result<UserSession, RequestError>) -> (r: Result<
        NeosAuthenticated,
        (NeosUnauthenticated, RequestError),
    >)
        ensures
            match outcome {
                Ok(session) => r == Ok::<NeosAuthenticated, (NeosUnauthenticated, RequestError)>(
                    self.upgraded(session),
                ),
                Err(error) => r == Err::<NeosAuthenticated, (NeosUnauthenticated, RequestError)>(
                    (self, error),
                ),
            },
    {
        match outcome {
            Ok(session) => Ok(self.upgrade(session)),
            Err(error) => Err((self, error)),
        }
    }

    /// The authenticated client that this one becomes with a session.
    pub closed spec fn upgraded(self, user_session: UserSession) -> NeosAuthenticated {
        NeosAuthenticated::from_parts(self.inner, user_session)
    }

    /// Upgrades the client to an authenticated version with an user session.
    /// Does not check the user session validity.
    #[must_use]
    pub fn upgrade(self, user_session: UserSession) -> (r: NeosAuthenticated)
        ensures
            r == self.upgraded(user_session),
            r@.client == self@,
            r@.user_id == user_session.user_id@,
            r@.token == user_session.token@,
    {
        NeosAuthenticated::from((self.inner, user_session))
    }

    /// The dispatcher behind the client.
    pub fn api_client(&self) -> (r: &NeosApiClient)
        ensures
            r@ == self@,
            *r == self.dispatcher(),
    {
        &self.inner
    }

    /// The dispatcher behind the client.
    pub closed spec fn dispatcher(self) -> NeosApiClient {
        self.inner
    }

    /// The client around a dispatcher.
    pub closed spec fn from_dispatcher(inner: NeosApiClient) -> NeosUnauthenticated {
        NeosUnauthenticated { inner }
    }
}

impl From<NeosApiClient> for NeosUnauthenticated {
    fn from(inner: NeosApiClient) -> (r: NeosUnauthenticated)
        ensures
            r@ == inner@,
    {
        NeosUnauthenticated { inner }
    }
}

impl FromSpecImpl<NeosApiClient> for NeosUnauthenticated {
    open spec fn obeys_from_spec() -> bool {
        true
    }

    open spec fn from_spec(inner: NeosApiClient) -> NeosUnauthenticated {
        NeosUnauthenticated::from_dispatcher(inner)
    }
}

impl From<AnyNeos> for NeosUnauthenticated {
    /// The client without its credentials, if it had any.
    fn from(api: AnyNeos) -> (r: NeosUnauthenticated)
        ensures
            r == (match api {
                AnyNeos::Unauthenticated(v) => v,
                AnyNeos::Authenticated(v) => v.downgraded(),
            }),
    {
        match api {
            AnyNeos::Unauthenticated(v) => v,
            AnyNeos::Authenticated(v) => v.downgrade(),
        }
    }
}

impl FromSpecImpl<AnyNeos> for NeosUnauthenticated {
    open spec fn obeys_from_spec() -> bool {
        true
    }

    open spec fn from_spec(api: AnyNeos) -> NeosUnauthenticated {
        match api {
            AnyNeos::Unauthenticated(v) => v,
            AnyNeos::Authenticated(v) => v.downgraded(),
        }
    }
}

/// Removing the credentials that an upgrade added gives the client back as
/// it was, the dispatcher and its timing included.
pub proof fn lemma_upgrade_then_downgrade(client: NeosUnauthenticated, user_session: UserSession)
    ensures
        client.upgraded(user_session).downgraded() == client,
{
    NeosAuthenticated::lemma_from_parts(client.inner, user_session);
    client.upgraded(user_session).lemma_downgraded();
}

/// A client that has given its credentials up attaches none: no request
/// that it sends has a header named `Authorization`.
pub proof fn lemma_downgraded_sends_no_credentials(
    client: NeosAuthenticated,
    step: Dispatch,
    now: u64,
    method: MethodView,
    path: Seq<char>,
)
    requires
        is_dispatch_of(
            step,
            client.downgraded().client(),
            client.downgraded().authorization(),
            now,
            method,
            path,
        ),
    ensures
        step matches Dispatch::Send(request) ==> !has_field(request@.headers, AUTHORIZATION@),
{
    lemma_standard_request_is_anonymous(client.downgraded().client(), method, path);
}

} // verus!
