//! The request pipeline of a Neos API client.
//!
//! Nothing here performs I/O. A client answers each request with a
//! [`Dispatch`]: either how long to wait before asking again, or the
//! [`Request`](crate::http::Request) to send. Whoever sends it hands the
//! [`Response`](crate::http::Response) to `handle_response`, together with
//! the clock readings of that moment.

use crate::clock::WallTime;
use crate::http::{
    body_text, field_pairs, find_field, has_field, lemma_set_new_field, Method, MethodView,
    RequestView, Response,
};
use crate::text::eq_ignore_ascii_case;
use vstd::prelude::*;
use vstd::string::*;

mod any;
mod auth;
mod error;
mod inner;
mod noauth;

pub use any::AnyNeos;
pub use auth::{
    add_message_params, friend_members, with_message_params, AuthenticatedView, NeosAuthenticated,
};
pub use error::{FailureKind, RequestError, RequestErrorView};
pub use inner::{
    asks_to_hold_back, blocked_until_after, deadline_from_hints, deadline_of, is_failure,
    lemma_exhausted_quota_delays, lemma_no_request_while_blocked,
    lemma_rate_limited_response_blocks, lemma_requests_keep_their_distance, quota_exhausted, rate_limit_wait, reset_hint, retry_after_hint, spacing_wait, ClientView,
    Dispatch, NeosApiClient, RateLimitTracker, API_BASE, DEFAULT_RATE_LIMIT_DELAY,
    MAX_HEADERS_SIZE, MAX_REDIRECTS, MAX_STATUS_LINE_LENGTH, MIN_BETWEEN_REQUESTS,
    RATE_LIMIT_REMAINING, RATE_LIMIT_RESET, RETRY_AFTER, TIMEOUT_SECS, TIME_OUT_OF_RANGE,
};
pub use noauth::{
    lemma_downgraded_sends_no_credentials, lemma_upgrade_then_downgrade, NeosUnauthenticated,
};

pub use crate::query::UserIdOrUsername;

verus! {

/// The name of the header that carries the credentials.
pub const AUTHORIZATION: &'static str = "Authorization";

/// A request with the credentials attached, where there are any.
pub open spec fn authorized(request: RequestView, authorization: Option<Seq<char>>) -> RequestView {
    match authorization {
        Some(value) => request.with_header(AUTHORIZATION@, value),
        None => request,
    }
}

/// Whether `step` is the answer that a client in the state `client`, with
/// the given credentials, owes to a request made at `now`: to wait for as
/// long as the state asks, or else to send the standard request with the
/// credentials attached.
pub open spec fn is_dispatch_of(
    step: Dispatch,
    client: ClientView,
    authorization: Option<Seq<char>>,
    now: u64,
    method: MethodView,
    path: Seq<char>,
) -> bool {
    match step {
        Dispatch::Wait(nanos) => nanos > 0 && nanos == client.wait(now),
        Dispatch::Send(request) => client.wait(now) == 0 && request@ == authorized(
            client.request(method, path),
            authorization,
        ),
    }
}

/// Whether `outcome` is what a response means: the response itself, or the
/// error with its status and body where the status tells of a failure.
pub open spec fn is_outcome_of(outcome: Result<Response, RequestError>, res: Response) -> bool {
    match outcome {
        Ok(response) => !is_failure(res.status_code) && response == res,
        Err(error) => is_failure(res.status_code) && error@ == RequestErrorView::ResponseCode(
            res.status_code,
            body_text(res.body@),
        ),
    }
}

/// The number that the body of a response stands for: the body is a JSON
/// string that holds the number in decimal.
pub open spec fn count_of(body: Seq<u8>) -> Option<u32> {
    if vstd::utf8::valid_utf8(body) {
        match crate::json::json_str_value(vstd::utf8::decode_utf8(body)) {
            Some(text) => match crate::text::parse_unsigned(text, u32::MAX as nat) {
                Some(count) => Some(count as u32),
                None => None,
            },
            None => None,
        }
    } else {
        None
    }
}

/// Reads the count that answers a request such as
/// [`online_user_count`](Neos::online_user_count). Anything but a JSON
/// string with a number in it is a de-serialization error.
pub fn parse_count(res: &Response) -> (r: Result<u32, RequestError>)
    ensures
        match r {
            Ok(count) => count_of(res.body@) == Some(count),
            Err(error) => count_of(res.body@) is None && error is Deserialization,
        },
{
    match res.as_str() {
        Some(document) => match crate::json::parse_str(document) {
            Ok(text) => match crate::text::parse_u32(text) {
                Some(count) => Ok(count),
                None => Err(
                    RequestError::Deserialization(String::from_str("the count is not a number")),
                ),
            },
            Err(why) => Err(RequestError::Deserialization(why)),
        },
        None => Err(
            RequestError::Deserialization(String::from_str("the body is not valid UTF-8")),
        ),
    }
}

/// The path of a user, with the note whether the user is given by name.
pub open spec fn user_path(user: UserIdOrUsername) -> Seq<char> {
    "users/"@ + user@ + "?byUsername="@ + (if user is Id {
        "false"@
    } else {
        "true"@
    })
}

/// A Neos API client
pub trait Neos {
    /// The state of the dispatcher behind the client.
    spec fn client(&self) -> ClientView;

    /// The value of the `Authorization` header that the client attaches, if
    /// it attaches one.
    spec fn authorization(&self) -> Option<Seq<char>>;

    /// Asks to make a request at the time `now`: the answer is to wait, or
    /// the request to send. The credentials stay as they are.
    fn api_request(&mut self, now: u64, method: Method, path: &str) -> (r: Dispatch)
        ensures
            final(self).client() == old(self).client().after_request(now),
            final(self).authorization() == old(self).authorization(),
            is_dispatch_of(r, old(self).client(), old(self).authorization(), now, method@, path@),
    ;

    /// Takes note of what a response says about rate limits, and tells
    /// success from failure. The credentials stay as they are.
    fn handle_response(&mut self, res: Response, now: u64, wall_now: WallTime) -> (r: Result<
        Response,
        RequestError,
    >)
        ensures
            final(self).client() == old(self).client().after_response(
                res.status_code,
                field_pairs(res.headers@),
                now,
                wall_now,
            ),
            final(self).authorization() == old(self).authorization(),
            is_outcome_of(r, res),
    ;

    /// Pings the API
    fn ping(&mut self, now: u64) -> (r: Dispatch)
        ensures
            final(self).client() == old(self).client().after_request(now),
            final(self).authorization() == old(self).authorization(),
            is_dispatch_of(
                r,
                old(self).client(),
                old(self).authorization(),
                now,
                MethodView::Get,
                "testing/ping"@,
            ),
    {
        self.api_request(now, Method::Get, "testing/ping")
    }

    /// Gets the amount of users that are online
    fn online_user_count(&mut self, now: u64) -> (r: Dispatch)
        ensures
            final(self).client() == old(self).client().after_request(now),
            final(self).authorization() == old(self).authorization(),
            is_dispatch_of(
                r,
                old(self).client(),
                old(self).authorization(),
                now,
                MethodView::Get,
                "stats/onlineUsers"@,
            ),
    {
        self.api_request(now, Method::Get, "stats/onlineUsers")
    }

    /// Gets the amount of online instances
    fn online_instance_count(&mut self, now: u64) -> (r: Dispatch)
        ensures
            final(self).client() == old(self).client().after_request(now),
            final(self).authorization() == old(self).authorization(),
            is_dispatch_of(
                r,
                old(self).client(),
                old(self).authorization(),
                now,
                MethodView::Get,
                "stats/onlineInstances"@,
            ),
    {
        self.api_request(now, Method::Get, "stats/onlineInstances")
    }

    /// Gets details of publicly listed sessions
    fn get_sessions(&mut self, now: u64) -> (r: Dispatch)
        ensures
            final(self).client() == old(self).client().after_request(now),
            final(self).authorization() == old(self).authorization(),
            is_dispatch_of(
                r,
                old(self).client(),
                old(self).authorization(),
                now,
                MethodView::Get,
                "sessions"@,
            ),
    {
        self.api_request(now, Method::Get, "sessions")
    }

    /// Gets details of an user by either username or ID
    fn get_user(&mut self, now: u64, user: &UserIdOrUsername) -> (r: Dispatch)
        ensures
            final(self).client() == old(self).client().after_request(now),
            final(self).authorization() == old(self).authorization(),
            is_dispatch_of(
                r,
                old(self).client(),
                old(self).authorization(),
                now,
                MethodView::Get,
                user_path(*user),
            ),
    {
        let mut path = String::from_str("users/");
        path.append(user.as_ref());
        path.append("?byUsername=");
        path.append(crate::text::bool_text(!user.is_id()));
        self.api_request(now, Method::Get, path.as_str())
    }

    /// Searches users by name
    fn search_users(&mut self, now: u64, name: &str) -> (r: Dispatch)
        ensures
            final(self).client() == old(self).client().after_request(now),
            final(self).authorization() == old(self).authorization(),
            is_dispatch_of(
                r,
                old(self).client(),
                old(self).authorization(),
                now,
                MethodView::Get,
                "users?name="@ + name@,
            ),
    {
        let mut path = String::from_str("users?name=");
        path.append(name);
        self.api_request(now, Method::Get, path.as_str())
    }

    /// Gets the status of an user
    fn get_user_status(&mut self, now: u64, user_id: &crate::id::User) -> (r: Dispatch)
        ensures
            final(self).client() == old(self).client().after_request(now),
            final(self).authorization() == old(self).authorization(),
            is_dispatch_of(
                r,
                old(self).client(),
                old(self).authorization(),
                now,
                MethodView::Get,
                "users/"@ + user_id@ + "/status"@,
            ),
    {
        let mut path = String::from_str("users/");
        path.append(user_id.as_ref());
        path.append("/status");
        self.api_request(now, Method::Get, path.as_str())
    }

    /// Gets details of a session
    fn get_session(&mut self, now: u64, session_id: &crate::id::Session) -> (r: Dispatch)
        ensures
            final(self).client() == old(self).client().after_request(now),
            final(self).authorization() == old(self).authorization(),
            is_dispatch_of(
                r,
                old(self).client(),
                old(self).authorization(),
                now,
                MethodView::Get,
                "sessions/"@ + session_id@,
            ),
    {
        let mut path = String::from_str("sessions/");
        path.append(session_id.as_ref());
        self.api_request(now, Method::Get, path.as_str())
    }

    /// Gets details of a group
    fn get_group(&mut self, now: u64, group_id: &crate::id::Group) -> (r: Dispatch)
        ensures
            final(self).client() == old(self).client().after_request(now),
            final(self).authorization() == old(self).authorization(),
            is_dispatch_of(
                r,
                old(self).client(),
                old(self).authorization(),
                now,
                MethodView::Get,
                "groups/"@ + group_id@,
            ),
    {
        let mut path = String::from_str("groups/");
        path.append(group_id.as_ref());
        self.api_request(now, Method::Get, path.as_str())
    }
}

/// The headers of the standard request: what is accepted, what is sent, and
/// who sends it.
pub proof fn lemma_standard_headers(client: ClientView, method: MethodView, path: Seq<char>)
    ensures
        client.request(method, path).headers == seq![
            ("Accept"@, "application/json"@),
            ("Content-Type"@, "application/json"@),
            ("User-Agent"@, client.user_agent),
        ],
{
    reveal_strlit("Accept");
    reveal_strlit("Content-Type");
    reveal_strlit("User-Agent");
    let none = Seq::<(Seq<char>, Seq<char>)>::empty();
    let one = none.push(("Accept"@, "application/json"@));
    let two = one.push(("Content-Type"@, "application/json"@));
    lemma_set_new_field(none, "Accept"@, "application/json"@);
    assert forall|i: int| 0 <= i < one.len() implies (#[trigger] one[i]).0 != "Content-Type"@ by {
        assert(one[i].0.len() == 6);
    }
    lemma_set_new_field(one, "Content-Type"@, "application/json"@);
    assert forall|i: int| 0 <= i < two.len() implies (#[trigger] two[i]).0 != "User-Agent"@ by {
        assert(two[i].0.len() == 6 || two[i].0.len() == 12);
    }
    lemma_set_new_field(two, "User-Agent"@, client.user_agent);
    assert(client.request(method, path).headers =~= seq![
        ("Accept"@, "application/json"@),
        ("Content-Type"@, "application/json"@),
        ("User-Agent"@, client.user_agent),
    ]);
}

/// The standard request carries no credentials: none of its headers is
/// named `Authorization`, in whatever case.
pub proof fn lemma_standard_request_is_anonymous(
    client: ClientView,
    method: MethodView,
    path: Seq<char>,
)
    ensures
        !has_field(client.request(method, path).headers, AUTHORIZATION@),
        find_field(client.request(method, path).headers, AUTHORIZATION@) is None,
{
    reveal_strlit("Authorization");
    reveal_strlit("Accept");
    reveal_strlit("Content-Type");
    reveal_strlit("User-Agent");
    lemma_standard_headers(client, method, path);
    let headers = client.request(method, path).headers;
    assert forall|i: int| 0 <= i < headers.len() implies !eq_ignore_ascii_case(
        #[trigger] headers[i].0,
        AUTHORIZATION@,
    ) by {
        assert(headers[i].0.len() != AUTHORIZATION@.len());
    }
    crate::http::lemma_find_field_some(headers, AUTHORIZATION@);
}

/// A client with credentials attaches them to the standard request as its
/// last header, and a look for them finds them.
pub proof fn lemma_authorized_request_carries_credentials(
    client: ClientView,
    method: MethodView,
    path: Seq<char>,
    value: Seq<char>,
)
    ensures
        authorized(client.request(method, path), Some(value)).headers == client.request(
            method,
            path,
        ).headers.push((AUTHORIZATION@, value)),
        find_field(
            authorized(client.request(method, path), Some(value)).headers,
            AUTHORIZATION@,
        ) == Some(value),
{
    reveal_strlit("Authorization");
    reveal_strlit("Accept");
    reveal_strlit("Content-Type");
    reveal_strlit("User-Agent");
    lemma_standard_headers(client, method, path);
    let headers = client.request(method, path).headers;
    assert forall|i: int| 0 <= i < headers.len() implies (#[trigger] headers[i]).0
        != AUTHORIZATION@ by {
        assert(headers[i].0.len() != AUTHORIZATION@.len());
    }
    lemma_set_new_field(headers, AUTHORIZATION@, value);
    let all = headers.push((AUTHORIZATION@, value));
    assert(!eq_ignore_ascii_case(all[0].0, AUTHORIZATION@)) by {
        assert(all[0].0.len() != AUTHORIZATION@.len());
    }
    assert(!eq_ignore_ascii_case(all.skip(1)[0].0, AUTHORIZATION@)) by {
        assert(all.skip(1)[0].0.len() != AUTHORIZATION@.len());
    }
    assert(!eq_ignore_ascii_case(all.skip(1).skip(1)[0].0, AUTHORIZATION@)) by {
        assert(all.skip(1).skip(1)[0].0.len() != AUTHORIZATION@.len());
    }
    assert(all.skip(1).skip(1).skip(1)[0] == (AUTHORIZATION@, value));
    assert(eq_ignore_ascii_case(AUTHORIZATION@, AUTHORIZATION@));
    reveal_with_fuel(find_field, 5);
}

} // verus!
