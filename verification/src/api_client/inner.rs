//! The dispatcher: spacing, rate limits, standard headers and the reading of
//! responses.

use super::error::{RequestError, RequestErrorView};
use crate::clock::{advance, later, parse_timestamp, timestamp_of, WallTime, NANOS_PER_SEC};
use crate::http::{body_text, field_pairs, find_field, Method, MethodView, Request, RequestView, Response};
use crate::text::{parse_u32, parse_u64, parse_unsigned};
use vstd::prelude::*;
use vstd::string::*;

verus! {

/// The address that every path is appended to.
pub const API_BASE: &'static str = "https://api.neos.com/api/";

/// The least time between two requests, in nanoseconds.
pub const MIN_BETWEEN_REQUESTS: u64 = 100_000_000;

/// How long to hold back after a rate-limit signal that names no time, in nanoseconds.
pub const DEFAULT_RATE_LIMIT_DELAY: u64 = 2_000_000_000;

/// The header that tells how many requests are left in the current window.
pub const RATE_LIMIT_REMAINING: &'static str = "X-Rate-Limit-Remaining";

/// The header that tells when the current window ends, as a timestamp.
pub const RATE_LIMIT_RESET: &'static str = "X-Rate-Limit-Reset";

/// The header that tells how many seconds to hold back.
pub const RETRY_AFTER: &'static str = "Retry-After";

/// How many redirects a request may follow.
pub const MAX_REDIRECTS: usize = 5;

/// The longest status line accepted, in bytes.
pub const MAX_STATUS_LINE_LENGTH: usize = 1_048_576;

/// The largest header block accepted, in bytes.
pub const MAX_HEADERS_SIZE: usize = 4_194_304;

/// The time a request may take, in seconds.
pub const TIMEOUT_SECS: u64 = 120;

/// What to do next about a request.
#[derive(Debug, Clone, PartialEq, Eq)]
pub enum Dispatch {
    /// Sleep for this many nanoseconds, then ask again.
    Wait(u64),
    /// Send this request now.
    Send(Request),
}

impl Dispatch {
    /// The step that follows the customizing of a request that was let
    /// through: to send what the customizer made, or, where it failed, the
    /// error that carries its reason. Nothing is sent then.
    pub fn customized(built: Result<Request, String>) -> (r: Result<Dispatch, RequestError>)
        ensures
            match built {
                Ok(request) => r == Ok::<Dispatch, RequestError>(Dispatch::Send(request)),
                Err(why) => r matches Err(error) && error@ == RequestErrorView::Other(why@),
            },
    {
        match built {
            Ok(request) => Ok(Dispatch::Send(request)),
            Err(why) => Err(RequestError::Other(why)),
        }
    }
}

/// What a customizer says of a time that cannot be written.
pub const TIME_OUT_OF_RANGE: &'static str = "the time is out of range";

/// How long a request must still wait out a rate limit, in nanoseconds.
pub open spec fn rate_limit_wait(blocked_until: Option<u64>, now: u64) -> u64 {
    match blocked_until {
        Some(until) => if until > now {
            (until - now) as u64
        } else {
            0
        },
        None => 0,
    }
}

/// How long a request must still wait to keep its distance from the last
/// one, in nanoseconds.
pub open spec fn spacing_wait(last_request: Option<u64>, now: u64) -> u64 {
    match last_request {
        Some(last) => if now < last + MIN_BETWEEN_REQUESTS {
            if last + MIN_BETWEEN_REQUESTS - now > u64::MAX {
                u64::MAX
            } else {
                (last + MIN_BETWEEN_REQUESTS - now) as u64
            }
        } else {
            0
        },
        None => 0,
    }
}

/// The time that a response asks to hold back until, from the time its
/// window resets, or else the seconds it asks to wait, or else the default
/// delay. A reset time in the past asks for nothing.
pub open spec fn deadline_of(
    reset: Option<WallTime>,
    retry_after: Option<u64>,
    now: u64,
    wall_now: WallTime,
) -> Option<u64> {
    match reset {
        Some(at) => if at.total_nanos() >= wall_now.total_nanos() {
            Some(later(now, at.total_nanos() - wall_now.total_nanos()))
        } else {
            None
        },
        None => match retry_after {
            Some(secs) => Some(later(now, secs * NANOS_PER_SEC)),
            None => Some(later(now, DEFAULT_RATE_LIMIT_DELAY as int)),
        },
    }
}

/// Computes the time to hold back until from what a response said.
pub fn deadline_from_hints(
    reset: Option<WallTime>,
    retry_after: Option<u64>,
    now: u64,
    wall_now: WallTime,
) -> (r: Option<u64>)
    ensures
        r == deadline_of(reset, retry_after, now, wall_now),
{
    match reset {
        Some(at) => {
            let target: i128 = at.as_nanos();
            let current: i128 = wall_now.as_nanos();
            if target >= current {
                Some(advance(now, (target - current) as u128))
            } else {
                None
            }
        },
        None => match retry_after {
            Some(secs) => {
                let nanos: u128 = (secs as u128) * (NANOS_PER_SEC as u128);
                Some(advance(now, nanos))
            },
            None => Some(advance(now, DEFAULT_RATE_LIMIT_DELAY as u128)),
        },
    }
}

/// The reset time that the headers of a response name, if they name one that
/// can be read.
pub open spec fn reset_hint(headers: Seq<(Seq<char>, Seq<char>)>) -> Option<WallTime> {
    match find_field(headers, RATE_LIMIT_RESET@) {
        Some(text) => timestamp_of(text),
        None => None,
    }
}

/// The seconds to wait that the headers of a response name, if they name a
/// number that can be read.
pub open spec fn retry_after_hint(headers: Seq<(Seq<char>, Seq<char>)>) -> Option<u64> {
    match find_field(headers, RETRY_AFTER@) {
        Some(text) => match parse_unsigned(text, u64::MAX as nat) {
            Some(secs) => Some(secs as u64),
            None => None,
        },
        None => None,
    }
}

/// Whether the headers of a response say that no request is left in the
/// current window.
pub open spec fn quota_exhausted(headers: Seq<(Seq<char>, Seq<char>)>) -> bool {
    match find_field(headers, RATE_LIMIT_REMAINING@) {
        Some(text) => parse_unsigned(text, u32::MAX as nat) == Some(0nat),
        None => false,
    }
}

/// Whether a response tells the client to hold back: by its status, or by
/// an exhausted quota.
pub open spec fn asks_to_hold_back(status: i32, headers: Seq<(Seq<char>, Seq<char>)>) -> bool {
    status == 429 || quota_exhausted(headers)
}

/// The time to hold back until after a response has been seen.
pub open spec fn blocked_until_after(
    blocked_until: Option<u64>,
    status: i32,
    headers: Seq<(Seq<char>, Seq<char>)>,
    now: u64,
    wall_now: WallTime,
) -> Option<u64> {
    if asks_to_hold_back(status, headers) {
        match deadline_of(reset_hint(headers), retry_after_hint(headers), now, wall_now) {
            Some(deadline) => Some(deadline),
            None => blocked_until,
        }
    } else {
        blocked_until
    }
}

/// Keeps the time before which no request may be sent.
#[derive(Debug, PartialEq, Eq)]
pub struct RateLimitTracker {
    blocked_until: Option<u64>,
}

impl View for RateLimitTracker {
    type V = Option<u64>;

    /// The time to hold back until, if there is one.
    closed spec fn view(&self) -> Option<u64> {
        self.blocked_until
    }
}

impl RateLimitTracker {
    /// A tracker that holds nothing back.
    pub fn new() -> (r: Self)
        ensures
            r@ is None,
    {
        RateLimitTracker { blocked_until: None }
    }

    /// The time to hold back until, if there is one.
    pub fn blocked_until(&self) -> (r: Option<u64>)
        ensures
            r == self@,
    {
        self.blocked_until
    }

    /// How long the caller has to sleep before a request may go out, in
    /// nanoseconds. Once the time to hold back until has come, the answer is
    /// zero and the tracker forgets that time.
    pub fn wait_if_blocked(&mut self, now: u64) -> (wait: u64)
        ensures
            wait == rate_limit_wait(old(self)@, now),
            final(self)@ == (if wait > 0 {
                old(self)@
            } else {
                None
            }),
    {
        match self.blocked_until {
            Some(until) => {
                if until > now {
                    return until - now;
                }
            },
            None => {},
        }
        self.blocked_until = None;
        0
    }

    /// Takes note of what a response said about rate limits.
    pub fn apply_from_response(
        &mut self,
        headers: &Vec<crate::http::Field>,
        status: i32,
        now: u64,
        wall_now: WallTime,
    )
        ensures
            final(self)@ == blocked_until_after(
                old(self)@,
                status,
                field_pairs(headers@),
                now,
                wall_now,
            ),
    {
        let exhausted = match crate::http::lookup_field(headers, RATE_LIMIT_REMAINING) {
            Some(text) => match parse_u32(text) {
                Some(left) => left == 0,
                None => false,
            },
            None => false,
        };
        if status == 429 || exhausted {
            let reset = match crate::http::lookup_field(headers, RATE_LIMIT_RESET) {
                Some(text) => parse_timestamp(text),
                None => None,
            };
            let retry_after = match crate::http::lookup_field(headers, RETRY_AFTER) {
                Some(text) => parse_u64(text),
                None => None,
            };
            match deadline_from_hints(reset, retry_after, now, wall_now) {
                Some(deadline) => {
                    self.blocked_until = Some(deadline);
                },
                None => {},
            }
        }
    }
}

/// What a response means for the caller: an error carrying the status and
/// the body where the status is 429 or outside of 200 to 299, else success.
pub open spec fn is_failure(status: i32) -> bool {
    status == 429 || status < 200 || status >= 300
}

/// The mathematical value of a [`NeosApiClient`].
pub struct ClientView {
    /// The user agent
    pub user_agent: Seq<char>,
    /// When the last request was let through, if any was
    pub last_request_time: Option<u64>,
    /// The time before which no request may be sent, if there is one
    pub blocked_until: Option<u64>,
}

impl ClientView {
    /// How long a request made at `now` has to wait, in nanoseconds: first
    /// for the rate limit, then for the distance from the last request.
    pub open spec fn wait(self, now: u64) -> u64 {
        if rate_limit_wait(self.blocked_until, now) > 0 {
            rate_limit_wait(self.blocked_until, now)
        } else {
            spacing_wait(self.last_request_time, now)
        }
    }

    /// The state after a request was asked for at `now`. A request that has
    /// to wait out the rate limit changes nothing. Else the rate limit is
    /// forgotten, and a request that is let through is the new last request.
    pub open spec fn after_request(self, now: u64) -> ClientView {
        if rate_limit_wait(self.blocked_until, now) > 0 {
            self
        } else if spacing_wait(self.last_request_time, now) > 0 {
            ClientView { blocked_until: None, ..self }
        } else {
            ClientView { blocked_until: None, last_request_time: Some(now), ..self }
        }
    }

    /// The state after a response was handled.
    pub open spec fn after_response(
        self,
        status: i32,
        headers: Seq<(Seq<char>, Seq<char>)>,
        now: u64,
        wall_now: WallTime,
    ) -> ClientView {
        ClientView {
            blocked_until: blocked_until_after(self.blocked_until, status, headers, now, wall_now),
            ..self
        }
    }

    /// The request for a path, with the standard headers and limits.
    pub open spec fn request(self, method: MethodView, path: Seq<char>) -> RequestView {
        RequestView::new(method, API_BASE@ + path).with_header(
            "Accept"@,
            "application/json"@,
        ).with_header("Content-Type"@, "application/json"@).with_header(
            "User-Agent"@,
            self.user_agent,
        ).with_max_redirects(MAX_REDIRECTS).with_max_status_line_length(
            Some(MAX_STATUS_LINE_LENGTH),
        ).with_max_headers_size(Some(MAX_HEADERS_SIZE)).with_timeout(TIMEOUT_SECS)
    }
}

/// Neos API client internals.
pub struct NeosApiClient {
    /// The user agent to use for the requests
    user_agent: String,
    /// When the last request was let through.
    last_request_time: Option<u64>,
    /// The time before which no request may be sent.
    rate_limit: RateLimitTracker,
}

impl View for NeosApiClient {
    type V = ClientView;

    closed spec fn view(&self) -> ClientView {
        ClientView {
            user_agent: self.user_agent@,
            last_request_time: self.last_request_time,
            blocked_until: self.rate_limit@,
        }
    }
}

impl NeosApiClient {
    /// A client that has sent nothing yet and holds nothing back.
    pub fn new(user_agent: String) -> (r: Self)
        ensures
            r@ == (ClientView {
                user_agent: user_agent@,
                last_request_time: None,
                blocked_until: None,
            }),
    {
        NeosApiClient { user_agent, last_request_time: None, rate_limit: RateLimitTracker::new() }
    }

    /// The user agent that the client sends.
    pub fn user_agent(&self) -> (r: &str)
        ensures
            r@ == self@.user_agent,
    {
        self.user_agent.as_str()
    }

    /// When the last request was let through, if any was.
    pub fn last_request_time(&self) -> (r: Option<u64>)
        ensures
            r == self@.last_request_time,
    {
        self.last_request_time
    }

    /// The time before which no request may be sent, if there is one.
    pub fn blocked_until(&self) -> (r: Option<u64>)
        ensures
            r == self@.blocked_until,
    {
        self.rate_limit.blocked_until()
    }

    /// How long the caller has to sleep until the rate limit has expired, in
    /// nanoseconds; zero once it has, and then the limit is forgotten.
    pub fn sleep_if_ratelimited(&mut self, now: u64) -> (wait: u64)
        ensures
            wait == rate_limit_wait(old(self)@.blocked_until, now),
            final(self)@ == (if wait > 0 {
                old(self)@
            } else {
                ClientView { blocked_until: None, ..old(self)@ }
            }),
    {
        self.rate_limit.wait_if_blocked(now)
    }

    /// How long the caller has to sleep to keep the distance from the last
    /// request, in nanoseconds. Where the answer is zero the request is let
    /// through, and `now` is noted as the time of the last request.
    pub fn sleep_between_requests(&mut self, now: u64) -> (wait: u64)
        ensures
            wait == spacing_wait(old(self)@.last_request_time, now),
            final(self)@ == (if wait > 0 {
                old(self)@
            } else {
                ClientView { last_request_time: Some(now), ..old(self)@ }
            }),
    {
        match self.last_request_time {
            Some(last) => {
                if now >= last {
                    if now - last < MIN_BETWEEN_REQUESTS {
                        return MIN_BETWEEN_REQUESTS - (now - last);
                    }
                } else {
                    return advance(last - now, MIN_BETWEEN_REQUESTS as u128);
                }
            },
            None => {},
        }
        self.last_request_time = Some(now);
        0
    }

    /// The request for a path, with the standard headers and limits.
    pub fn build_request(&self, method: Method, path: &str) -> (r: Request)
        ensures
            r@ == self@.request(method@, path@),
    {
        let mut url = String::from_str(API_BASE);
        url.append(path);
        Request::new(method, url).with_header("Accept", "application/json").with_header(
            "Content-Type",
            "application/json",
        ).with_header("User-Agent", self.user_agent.as_str()).with_max_redirects(
            MAX_REDIRECTS,
        ).with_max_status_line_length(Some(MAX_STATUS_LINE_LENGTH)).with_max_headers_size(
            Some(MAX_HEADERS_SIZE),
        ).with_timeout(TIMEOUT_SECS)
    }

    /// Asks to make a request at the time `now`. The answer is to wait, for
    /// the rate limit or for the distance from the last request, or the
    /// request to send.
    pub fn basic_api_request(&mut self, now: u64, method: Method, path: &str) -> (r: Dispatch)
        ensures
            final(self)@ == old(self)@.after_request(now),
            match r {
                Dispatch::Wait(nanos) => nanos > 0 && nanos == old(self)@.wait(now),
                Dispatch::Send(request) => old(self)@.wait(now) == 0 && request@ == old(
                    self,
                )@.request(method@, path@),
            },
    {
        let blocked = self.sleep_if_ratelimited(now);
        if blocked > 0 {
            return Dispatch::Wait(blocked);
        }
        let spacing = self.sleep_between_requests(now);
        if spacing > 0 {
            return Dispatch::Wait(spacing);
        }
        Dispatch::Send(self.build_request(method, path))
    }

    /// Handles updating the rate limit and figuring out other errors. The
    /// response comes back unchanged unless its status is 429 or outside of
    /// 200 to 299: then the error carries the status and the body as text.
    pub fn handle_response(&mut self, res: Response, now: u64, wall_now: WallTime) -> (r: Result<
        Response,
        RequestError,
    >)
        ensures
            final(self)@ == old(self)@.after_response(
                res.status_code,
                field_pairs(res.headers@),
                now,
                wall_now,
            ),
            match r {
                Ok(response) => !is_failure(res.status_code) && response == res,
                Err(error) => is_failure(res.status_code) && error@
                    == RequestErrorView::ResponseCode(res.status_code, body_text(res.body@)),
            },
    {
        self.rate_limit.apply_from_response(&res.headers, res.status_code, now, wall_now);
        if res.status_code == 429 || res.status_code < 200 || res.status_code >= 300 {
            return Err(RequestError::ResponseCode(res.status_code, res.text_or_empty()));
        }
        Ok(res)
    }
}

/// A response with the status 429 makes the client hold back until a time
/// that is still to come. This leaves out a reset time that has come
/// already, a delay of zero seconds, and the very last reading of the clock.
pub proof fn lemma_rate_limited_response_blocks(
    client: ClientView,
    headers: Seq<(Seq<char>, Seq<char>)>,
    now: u64,
    wall_now: WallTime,
)
    requires
        now < u64::MAX,
        match reset_hint(headers) {
            Some(at) => at.total_nanos() > wall_now.total_nanos(),
            None => retry_after_hint(headers) != Some(0u64),
        },
    ensures
        is_failure(429),
        client.after_response(429, headers, now, wall_now).blocked_until matches Some(until)
            && until > now,
        client.after_response(429, headers, now, wall_now).wait(now) > 0,
{
}

/// A response that succeeds but tells of an exhausted quota delays the
/// requests that follow until the time that its headers give: a request made
/// before that time is told to wait for what is left.
pub proof fn lemma_exhausted_quota_delays(
    client: ClientView,
    status: i32,
    headers: Seq<(Seq<char>, Seq<char>)>,
    now: u64,
    wall_now: WallTime,
    next: u64,
)
    requires
        200 <= status < 300,
        quota_exhausted(headers),
        deadline_of(reset_hint(headers), retry_after_hint(headers), now, wall_now) is Some,
    ensures
        !is_failure(status),
        ({
            let deadline = deadline_of(
                reset_hint(headers),
                retry_after_hint(headers),
                now,
                wall_now,
            )->0;
            let after = client.after_response(status, headers, now, wall_now);
            &&& deadline >= now
            &&& after.blocked_until == Some(deadline)
            &&& next < deadline ==> after.wait(next) == deadline - next
            &&& next < deadline ==> after.after_request(next) == after
        }),
{
}

/// Two requests that are let through one after the other lie at least the
/// least distance apart, whatever response was handled in between.
pub proof fn lemma_requests_keep_their_distance(
    client: ClientView,
    first: u64,
    second: u64,
    status: i32,
    headers: Seq<(Seq<char>, Seq<char>)>,
    now: u64,
    wall_now: WallTime,
)
    requires
        client.wait(first) == 0,
    ensures
        client.after_request(first).wait(second) == 0 ==> second >= first + MIN_BETWEEN_REQUESTS,
        client.after_request(first).after_response(status, headers, now, wall_now).wait(second)
            == 0 ==> second >= first + MIN_BETWEEN_REQUESTS,
{
}

/// No request is let through before the time to hold back until has come,
/// and one that is let through leaves no such time behind.
pub proof fn lemma_no_request_while_blocked(client: ClientView, now: u64)
    ensures
        client.wait(now) == 0 ==> (client.blocked_until matches Some(until) ==> until <= now),
        client.wait(now) == 0 ==> client.after_request(now).blocked_until is None,
        client.wait(now) == 0 ==> client.after_request(now).last_request_time == Some(now),
{
}

} // verus!
