use super::inner::{ClientView, Dispatch, NeosApiClient};
use super::{
    authorized, is_dispatch_of, Neos, NeosUnauthenticated, RequestError, RequestErrorView,
    AUTHORIZATION, TIME_OUT_OF_RANGE,
};
use crate::clock::WallTime;
use crate::http::{Method, MethodView, Request, RequestView, Response};
use crate::json::{member_pairs, object_text, write_object, Json, JsonView, Member};
use crate::model::{auth_header_of, write_auth_header, UserSession};
use crate::text::{decimal_text, u64_to_decimal};
use vstd::prelude::*;
use vstd::std_specs::convert::FromSpecImpl;
use vstd::string::*;

verus! {

/// The mathematical value of a [`NeosAuthenticated`].
pub struct AuthenticatedView {
    /// The state of the dispatcher
    pub client: ClientView,
    /// The user that the client acts for
    pub user_id: Seq<char>,
    /// The secret token of the session
    pub token: Seq<char>,
}

/// Neos API client with authentication
pub struct NeosAuthenticated {
    inner: NeosApiClient,
    user_id: crate::id::User,
    token: String,
}

impl View for NeosAuthenticated {
    type V = AuthenticatedView;

    closed spec fn view(&self) -> AuthenticatedView {
        AuthenticatedView { client: self.inner@, user_id: self.user_id@, token: self.token@ }
    }
}

impl Neos for NeosAuthenticated {
    open spec fn client(&self) -> ClientView {
        self@.client
    }

    /// The scheme, the user and the token of the session.
    open spec fn authorization(&self) -> Option<Seq<char>> {
        Some(auth_header_of(self@.user_id, self@.token))
    }

    fn api_request(&mut self, now: u64, method: Method, path: &str) -> (r: Dispatch)
        ensures
            final(self)@.user_id == old(self)@.user_id,
            final(self)@.token == old(self)@.token,
    {
        match self.inner.basic_api_request(now, method, path) {
            Dispatch::Wait(nanos) => Dispatch::Wait(nanos),
            Dispatch::Send(request) => {
                let value = write_auth_header(self.user_id.as_ref(), self.token.as_str());
                Dispatch::Send(request.with_header(AUTHORIZATION, value.as_str()))
            },
        }
    }

    fn handle_response(&mut self, res: Response, now: u64, wall_now: WallTime) -> (r: Result<
        Response,
        RequestError,
    >)
        ensures
            final(self)@.user_id == old(self)@.user_id,
            final(self)@.token == old(self)@.token,
    {
        self.inner.handle_response(res, now, wall_now)
    }
}

/// The members of the body that sets a friendship: its new status, for the
/// given user as the owner.
pub open spec fn friend_members(owner: Seq<char>, status: Seq<char>) -> Seq<(Seq<char>, JsonView)> {
    seq![("friendStatus"@, JsonView::Text(status)), ("ownerId"@, JsonView::Text(owner))]
}

/// Writes the body that sets a friendship. Fails, with the reason as a
/// text, exactly where the owner or the status cannot be written as JSON.
fn write_friend_body(owner: &str, status: &str) -> (r: Result<String, String>)
    ensures
        match r {
            Ok(text) => object_text(friend_members(owner@, status@)) == Some(text@),
            Err(_) => object_text(friend_members(owner@, status@)) is None,
        },
{
    let mut members: Vec<Member> = Vec::new();
    members.push(Member::new("friendStatus", Json::Text(String::from_str(status))));
    members.push(Member::new("ownerId", Json::Text(String::from_str(owner))));
    assert(member_pairs(members@) =~= friend_members(owner@, status@));
    write_object(&members)
}

/// A request with the query parameters that narrow a listing of messages
/// down: the earliest time, the other user, unread messages only; then the
/// largest amount to get.
pub open spec fn with_message_params(
    request: RequestView,
    max_amount: u16,
    unread_only: bool,
    from_time: Option<Seq<char>>,
    user: Option<Seq<char>>,
) -> RequestView {
    let timed = match from_time {
        Some(text) => request.with_param("fromTime"@, text),
        None => request,
    };
    let with_user = match user {
        Some(id) => timed.with_param("user"@, id),
        None => timed,
    };
    let unread = if unread_only {
        with_user.with_param("unread"@, "true"@)
    } else {
        with_user
    };
    unread.with_param("maxItems"@, decimal_text(max_amount as nat))
}

/// Adds the query parameters that narrow a listing of messages down.
pub fn add_message_params(
    request: Request,
    max_amount: u16,
    unread_only: bool,
    from_time: Option<&str>,
    user: Option<&str>,
) -> (r: Request)
    ensures
        r@ == with_message_params(
            request@,
            max_amount,
            unread_only,
            match from_time {
                Some(text) => Some(text@),
                None => None,
            },
            match user {
                Some(id) => Some(id@),
                None => None,
            },
        ),
{
    let mut req = request;
    match from_time {
        Some(text) => {
            req = req.with_param("fromTime", text);
        },
        None => {},
    }
    match user {
        Some(id) => {
            req = req.with_param("user", id);
        },
        None => {},
    }
    if unread_only {
        req = req.with_param("unread", "true");
    }
    req.with_param("maxItems", u64_to_decimal(max_amount as u64).as_str())
}

impl NeosAuthenticated {
    /// The client made of a dispatcher and the credentials of a session.
    pub closed spec fn from_parts(inner: NeosApiClient, user_session: UserSession) -> Self {
        NeosAuthenticated { inner, token: user_session.token, user_id: user_session.user_id }
    }

    /// The dispatcher behind the client.
    pub closed spec fn dispatcher(self) -> NeosApiClient {
        self.inner
    }

    /// A client made of parts has those parts.
    pub proof fn lemma_from_parts(inner: NeosApiClient, user_session: UserSession)
        ensures
            Self::from_parts(inner, user_session).dispatcher() == inner,
            Self::from_parts(inner, user_session)@.client == inner@,
            Self::from_parts(inner, user_session)@.user_id == user_session.user_id@,
            Self::from_parts(inner, user_session)@.token == user_session.token@,
    {
    }

    /// Creates a new authenticated Neos API client instance. Does not check the
    /// user session validity.
    #[must_use]
    pub fn new(user_agent: String, session: UserSession) -> (r: Self)
        ensures
            r@ == (AuthenticatedView {
                client: ClientView {
                    user_agent: user_agent@,
                    last_request_time: None,
                    blocked_until: None,
                },
                user_id: session.user_id@,
                token: session.token@,
            }),
    {
        Self::from((NeosApiClient::new(user_agent), session))
    }

    /// The dispatcher behind the client.
    pub fn api_client(&self) -> (r: &NeosApiClient)
        ensures
            r@ == self@.client,
            *r == self.dispatcher(),
    {
        &self.inner
    }

    /// The user that the client acts for.
    pub fn user_id(&self) -> (r: &crate::id::User)
        ensures
            r@ == self@.user_id,
    {
        &self.user_id
    }

    /// Asks to send a logout request at the time `now`.
    ///
    /// If you just want to get rid of the authentication, consider using
    /// [`downgrade`](Self::downgrade)
    pub fn logout(&mut self, now: u64) -> (r: Dispatch)
        ensures
            final(self)@ == (AuthenticatedView {
                client: old(self)@.client.after_request(now),
                ..old(self)@
            }),
            is_dispatch_of(
                r,
                old(self)@.client,
                old(self).authorization(),
                now,
                MethodView::Delete,
                "userSessions/"@ + old(self)@.user_id,
            ),
    {
        let mut path = String::from_str("userSessions/");
        path.append(self.user_id.as_ref());
        self.api_request(now, Method::Delete, path.as_str())
    }

    /// Ends a logout: where the server took it, the credentials are dropped;
    /// with an error, the client comes back as it was, credentials included,
    /// together with the error.
    pub fn finish_logout(self, outcome: Result<(), RequestError>) -> (r: Result<
        NeosUnauthenticated,
        (NeosAuthenticated, RequestError),
    >)
        ensures
            match outcome {
                Ok(_) => r == Ok::<NeosUnauthenticated, (NeosAuthenticated, RequestError)>(
                    self.downgraded(),
                ),
                Err(error) => r == Err::<NeosUnauthenticated, (NeosAuthenticated, RequestError)>(
                    (self, error),
                ),
            },
    {
        match outcome {
            Ok(_) => Ok(self.downgrade()),
            Err(error) => Err((self, error)),
        }
    }

    /// Asks to extend the current user session at the time `now`.
    pub fn extend_session(&mut self, now: u64) -> (r: Dispatch)
        ensures
            final(self)@ == (AuthenticatedView {
                client: old(self)@.client.after_request(now),
                ..old(self)@
            }),
            is_dispatch_of(
                r,
                old(self)@.client,
                old(self).authorization(),
                now,
                MethodView::Patch,
                "userSessions"@,
            ),
    {
        self.api_request(now, Method::Patch, "userSessions")
    }

    /// Asks for the friends of the current session's user.
    pub fn get_friends(&mut self, now: u64, last_status_update: Option<WallTime>) -> (r: Result<
        Dispatch,
        RequestError,
    >)
        ensures
            final(self)@ == (AuthenticatedView {
                client: old(self)@.client.after_request(now),
                ..old(self)@
            }),
            Self::is_friends_dispatch(
                r,
                *old(self),
                now,
                old(self)@.user_id,
                last_status_update,
            ),
    {
        let user = self.user_id.clone();
        self.get_friends_for(now, &user, last_status_update)
    }

    /// Whether `step` is the answer owed to a request for the friends of a
    /// user: to wait, or the request, with the time of the last status
    /// update as a parameter where one was given, or an error where a
    /// request was due and that time cannot be written.
    pub open spec fn is_friends_dispatch(
        step: Result<Dispatch, RequestError>,
        client: Self,
        now: u64,
        user: Seq<char>,
        last_status_update: Option<WallTime>,
    ) -> bool {
        let base = authorized(
            client@.client.request(MethodView::Get, "users/"@ + user + "/friends"@),
            client.authorization(),
        );
        match step {
            Ok(Dispatch::Wait(nanos)) => nanos > 0 && nanos == client@.client.wait(now),
            Ok(Dispatch::Send(request)) => client@.client.wait(now) == 0 && (
            match last_status_update {
                Some(at) => at.utc_text() matches Some(text) && request@ == base.with_param(
                    "lastStatusUpdate"@,
                    text,
                ),
                None => request@ == base,
            }),
            Err(error) => client@.client.wait(now) == 0 && error@ == RequestErrorView::Other(
                TIME_OUT_OF_RANGE@,
            ) && (last_status_update matches Some(at) && at.utc_text() is None),
        }
    }

    /// Asks for the friends of a specific user
    pub fn get_friends_for(
        &mut self,
        now: u64,
        user: &crate::id::User,
        last_status_update: Option<WallTime>,
    ) -> (r: Result<Dispatch, RequestError>)
        ensures
            final(self)@ == (AuthenticatedView {
                client: old(self)@.client.after_request(now),
                ..old(self)@
            }),
            Self::is_friends_dispatch(r, *old(self), now, user@, last_status_update),
    {
        let mut path = String::from_str("users/");
        path.append(user.as_ref());
        path.append("/friends");
        match self.api_request(now, Method::Get, path.as_str()) {
            Dispatch::Wait(nanos) => Ok(Dispatch::Wait(nanos)),
            Dispatch::Send(request) => {
                let built = match last_status_update {
                    Some(at) => match at.to_utc_text() {
                        Some(text) => Ok(request.with_param("lastStatusUpdate", text.as_str())),
                        None => Err(String::from_str(TIME_OUT_OF_RANGE)),
                    },
                    None => Ok(request),
                };
                Dispatch::customized(built)
            },
        }
    }

    /// Whether `step` is the answer owed to a request that sets the
    /// friendship with a user: to wait, or the request with the new status
    /// as its body, or an error exactly where a request was due and the
    /// body cannot be written.
    pub open spec fn is_friendship_dispatch(
        step: Result<Dispatch, RequestError>,
        client: Self,
        now: u64,
        method: MethodView,
        user: Seq<char>,
        status: Seq<char>,
    ) -> bool {
        match step {
            Ok(Dispatch::Wait(nanos)) => nanos > 0 && nanos == client@.client.wait(now),
            Ok(Dispatch::Send(request)) => client@.client.wait(now) == 0 && (object_text(
                friend_members(client@.user_id, status),
            ) matches Some(body) && request@ == authorized(
                client@.client.request(
                    method,
                    "users/"@ + client@.user_id + "/friends/"@ + user,
                ),
                client.authorization(),
            ).with_json(body)),
            Err(error) => client@.client.wait(now) == 0 && error is Other && object_text(
                friend_members(client@.user_id, status),
            ) is None,
        }
    }

    fn set_friendship(
        &mut self,
        now: u64,
        method: Method,
        user_id: &crate::id::User,
        status: &str,
    ) -> (r: Result<Dispatch, RequestError>)
        ensures
            final(self)@ == (AuthenticatedView {
                client: old(self)@.client.after_request(now),
                ..old(self)@
            }),
            Self::is_friendship_dispatch(r, *old(self), now, method@, user_id@, status@),
    {
        let mut path = String::from_str("users/");
        path.append(self.user_id.as_ref());
        path.append("/friends/");
        path.append(user_id.as_ref());
        match self.api_request(now, method, path.as_str()) {
            Dispatch::Wait(nanos) => Ok(Dispatch::Wait(nanos)),
            Dispatch::Send(request) => {
                let built = match write_friend_body(self.user_id.as_ref(), status) {
                    Ok(body) => Ok(request.with_json(body)),
                    Err(why) => Err(why),
                };
                Dispatch::customized(built)
            },
        }
    }

    /// Asks to send a friend request
    pub fn add_friend(&mut self, now: u64, user_id: &crate::id::User) -> (r: Result<
        Dispatch,
        RequestError,
    >)
        ensures
            final(self)@ == (AuthenticatedView {
                client: old(self)@.client.after_request(now),
                ..old(self)@
            }),
            Self::is_friendship_dispatch(
                r,
                *old(self),
                now,
                MethodView::Put,
                user_id@,
                "Accepted"@,
            ),
    {
        self.set_friendship(now, Method::Put, user_id, "Accepted")
    }

    /// Asks to send a request to remove a friend
    pub fn remove_friend(&mut self, now: u64, user_id: &crate::id::User) -> (r: Result<
        Dispatch,
        RequestError,
    >)
        ensures
            final(self)@ == (AuthenticatedView {
                client: old(self)@.client.after_request(now),
                ..old(self)@
            }),
            Self::is_friendship_dispatch(
                r,
                *old(self),
                now,
                MethodView::Delete,
                user_id@,
                "Ignored"@,
            ),
    {
        self.set_friendship(now, Method::Delete, user_id, "Ignored")
    }

    /// Asks to send a message, given as the JSON document that stands for
    /// it, to its recipient.
    pub fn send_message(&mut self, now: u64, recipient_id: &crate::id::User, message: String) -> (r:
        Dispatch)
        ensures
            final(self)@ == (AuthenticatedView {
                client: old(self)@.client.after_request(now),
                ..old(self)@
            }),
            match r {
                Dispatch::Wait(nanos) => nanos > 0 && nanos == old(self)@.client.wait(now),
                Dispatch::Send(request) => old(self)@.client.wait(now) == 0 && request@
                    == authorized(
                    old(self)@.client.request(
                        MethodView::Delete,
                        "users/"@ + recipient_id@ + "/messages"@,
                    ),
                    old(self).authorization(),
                ).with_json(message@),
            },
    {
        let mut path = String::from_str("users/");
        path.append(recipient_id.as_ref());
        path.append("/messages");
        match self.api_request(now, Method::Delete, path.as_str()) {
            Dispatch::Wait(nanos) => Dispatch::Wait(nanos),
            Dispatch::Send(request) => Dispatch::Send(request.with_json(message)),
        }
    }

    /// Whether `step` is the answer owed to a request for messages: to wait,
    /// or the request with its parameters, or an error where a request was
    /// due and the earliest time cannot be written.
    pub open spec fn is_messages_dispatch(
        step: Result<Dispatch, RequestError>,
        client: Self,
        now: u64,
        max_amount: u16,
        unread_only: bool,
        from_time: Option<WallTime>,
        user: Option<crate::id::User>,
    ) -> bool {
        let base = authorized(
            client@.client.request(
                MethodView::Get,
                "users/"@ + client@.user_id + "/messages"@,
            ),
            client.authorization(),
        );
        let user_text = match user {
            Some(id) => Some(id@),
            None => None,
        };
        match step {
            Ok(Dispatch::Wait(nanos)) => nanos > 0 && nanos == client@.client.wait(now),
            Ok(Dispatch::Send(request)) => client@.client.wait(now) == 0 && (match from_time {
                Some(at) => at.utc_text() matches Some(text) && request@ == with_message_params(
                    base,
                    max_amount,
                    unread_only,
                    Some(text),
                    user_text,
                ),
                None => request@ == with_message_params(
                    base,
                    max_amount,
                    unread_only,
                    None,
                    user_text,
                ),
            }),
            Err(error) => client@.client.wait(now) == 0 && error@ == RequestErrorView::Other(
                TIME_OUT_OF_RANGE@,
            ) && (from_time matches Some(at) && at.utc_text() is None),
        }
    }

    /// Asks to fetch messages from the API
    pub fn get_messages(
        &mut self,
        now: u64,
        max_amount: u16,
        unread_only: bool,
        from_time: Option<WallTime>,
        user: &Option<crate::id::User>,
    ) -> (r: Result<Dispatch, RequestError>)
        ensures
            final(self)@ == (AuthenticatedView {
                client: old(self)@.client.after_request(now),
                ..old(self)@
            }),
            Self::is_messages_dispatch(
                r,
                *old(self),
                now,
                max_amount,
                unread_only,
                from_time,
                *user,
            ),
    {
        let mut path = String::from_str("users/");
        path.append(self.user_id.as_ref());
        path.append("/messages");
        match self.api_request(now, Method::Get, path.as_str()) {
            Dispatch::Wait(nanos) => Ok(Dispatch::Wait(nanos)),
            Dispatch::Send(request) => {
                let user_text: Option<&str> = match user {
                    Some(id) => Some(id.as_ref()),
                    None => None,
                };
                let built = match from_time {
                    Some(at) => match at.to_utc_text() {
                        Some(text) => Ok(
                            add_message_params(
                                request,
                                max_amount,
                                unread_only,
                                Some(text.as_str()),
                                user_text,
                            ),
                        ),
                        None => Err(String::from_str(TIME_OUT_OF_RANGE)),
                    },
                    None => Ok(
                        add_message_params(request, max_amount, unread_only, None, user_text),
                    ),
                };
                Dispatch::customized(built)
            },
        }
    }

    /// The client that is left once the credentials are gone.
    pub closed spec fn downgraded(self) -> NeosUnauthenticated {
        NeosUnauthenticated::from_dispatcher(self.inner)
    }

    /// What is left is the client around the same dispatcher.
    pub proof fn lemma_downgraded(self)
        ensures
            self.downgraded() == NeosUnauthenticated::from_dispatcher(self.dispatcher()),
            self.dispatcher()@ == self@.client,
    {
    }

    /// Removes the authentication from the API client.
    #[must_use]
    pub fn downgrade(self) -> (r: NeosUnauthenticated)
        ensures
            r == self.downgraded(),
            r@ == self@.client,
    {
        NeosUnauthenticated::from(self.inner)
    }
}

impl From<(NeosApiClient, UserSession)> for NeosAuthenticated {
    fn from(parts: (NeosApiClient, UserSession)) -> (r: NeosAuthenticated)
        ensures
            r@.client == parts.0@,
            r@.user_id == parts.1.user_id@,
            r@.token == parts.1.token@,
    {
        let (inner, user_session) = parts;
        NeosAuthenticated { inner, token: user_session.token, user_id: user_session.user_id }
    }
}

impl FromSpecImpl<(NeosApiClient, UserSession)> for NeosAuthenticated {
    open spec fn obeys_from_spec() -> bool {
        true
    }

    open spec fn from_spec(parts: (NeosApiClient, UserSession)) -> NeosAuthenticated {
        NeosAuthenticated::from_parts(parts.0, parts.1)
    }
}

} // verus!
