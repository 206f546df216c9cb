use neos::api_client::{
    deadline_from_hints, Dispatch, Neos, NeosApiClient, NeosUnauthenticated, RateLimitTracker,
    RequestError, DEFAULT_RATE_LIMIT_DELAY, MIN_BETWEEN_REQUESTS,
};
use neos::clock::WallTime;
use neos::http::{Field, Method, Response};

const NOON: WallTime = WallTime { secs: 1_651_406_400, nanos: 0 };

fn response(status_code: i32, headers: &[(&str, &str)], body: &[u8]) -> Response {
    Response {
        status_code,
        reason_phrase: String::new(),
        headers: headers
            .iter()
            .map(|(name, value)| Field { name: name.to_string(), value: value.to_string() })
            .collect(),
        url: "https://api.neos.com/api/testing/ping".to_string(),
        body: body.to_vec(),
    }
}

#[test]
fn first_request_is_sent_at_once() {
    let mut client = NeosUnauthenticated::new("agent/1.0".to_string());
    match client.api_request(0, Method::Get, "testing/ping") {
        Dispatch::Send(request) => {
            assert_eq!(request.method, Method::Get);
            assert_eq!(request.url, "https://api.neos.com/api/testing/ping");
            assert_eq!(request.header("accept"), Some("application/json"));
            assert_eq!(request.header("Content-Type"), Some("application/json"));
            assert_eq!(request.header("User-Agent"), Some("agent/1.0"));
            assert_eq!(request.header("Authorization"), None);
            assert_eq!(request.headers.len(), 3);
            assert_eq!(request.max_redirects, 5);
            assert_eq!(request.max_status_line_length, Some(1 << 20));
            assert_eq!(request.max_headers_size, Some(1 << 22));
            assert_eq!(request.timeout, Some(120));
            assert!(request.params.is_empty());
            assert_eq!(request.body, None);
        }
        Dispatch::Wait(nanos) => panic!("waited {nanos} ns without any history"),
    }
    assert_eq!(client.api_client().last_request_time(), Some(0));
}

#[test]
fn second_request_keeps_its_distance() {
    let mut client = NeosApiClient::new("agent".to_string());
    assert!(matches!(client.basic_api_request(1_000, Method::Get, "sessions"), Dispatch::Send(_)));
    assert_eq!(client.last_request_time(), Some(1_000));
    assert_eq!(
        client.basic_api_request(1_000, Method::Get, "sessions"),
        Dispatch::Wait(MIN_BETWEEN_REQUESTS)
    );
    assert_eq!(
        client.basic_api_request(60_001_000, Method::Get, "sessions"),
        Dispatch::Wait(40_000_000)
    );
    assert_eq!(
        client.basic_api_request(100_000_999, Method::Get, "sessions"),
        Dispatch::Wait(1)
    );
    assert_eq!(client.last_request_time(), Some(1_000));
    assert!(matches!(
        client.basic_api_request(100_001_000, Method::Get, "sessions"),
        Dispatch::Send(_)
    ));
    assert_eq!(client.last_request_time(), Some(100_001_000));
}

#[test]
fn a_clock_that_ran_backwards_waits_longer() {
    let mut client = NeosApiClient::new("agent".to_string());
    assert_eq!(client.sleep_between_requests(500), 0);
    assert_eq!(client.sleep_between_requests(200), 300 + MIN_BETWEEN_REQUESTS);
    assert_eq!(client.last_request_time(), Some(500));
}

#[test]
fn spacing_at_the_end_of_the_clock_does_not_overflow() {
    let mut client = NeosApiClient::new("agent".to_string());
    assert_eq!(client.sleep_between_requests(u64::MAX), 0);
    assert_eq!(client.sleep_between_requests(u64::MAX), MIN_BETWEEN_REQUESTS);
    assert_eq!(client.sleep_between_requests(0), u64::MAX);
}

#[test]
fn two_callers_of_one_client_are_spaced() {
    let mut client = NeosApiClient::new("agent".to_string());
    let mut sent: Vec<u64> = Vec::new();
    let mut clocks = [10_u64, 10_u64];
    let mut pending = [true, true];
    while pending[0] || pending[1] {
        for caller in 0..2 {
            if !pending[caller] {
                continue;
            }
            match client.basic_api_request(clocks[caller], Method::Get, "sessions") {
                Dispatch::Send(_) => {
                    sent.push(clocks[caller]);
                    pending[caller] = false;
                }
                Dispatch::Wait(nanos) => clocks[caller] += nanos,
            }
        }
    }
    assert_eq!(sent, vec![10, 10 + MIN_BETWEEN_REQUESTS]);
}

#[test]
fn retry_after_holds_the_next_request_back() {
    let mut client = NeosUnauthenticated::new("agent".to_string());
    assert!(matches!(client.api_request(0, Method::Get, "sessions"), Dispatch::Send(_)));
    let outcome =
        client.handle_response(response(429, &[("Retry-After", "5")], b"slow down"), 7, NOON);
    assert_eq!(outcome, Err(RequestError::ResponseCode(429, "slow down".to_string())));
    assert_eq!(client.api_client().blocked_until(), Some(5_000_000_007));
    assert_eq!(
        client.api_request(1_000_000_007, Method::Get, "sessions"),
        Dispatch::Wait(4_000_000_000)
    );
    assert_eq!(client.api_client().blocked_until(), Some(5_000_000_007));
    assert!(matches!(
        client.api_request(5_000_000_007, Method::Get, "sessions"),
        Dispatch::Send(_)
    ));
    assert_eq!(client.api_client().blocked_until(), None);
}

#[test]
fn rate_limit_without_hints_uses_the_default_delay() {
    let mut client = NeosApiClient::new("agent".to_string());
    let outcome = client.handle_response(response(429, &[], b""), 1_000, NOON);
    assert_eq!(outcome, Err(RequestError::ResponseCode(429, String::new())));
    assert_eq!(client.blocked_until(), Some(1_000 + DEFAULT_RATE_LIMIT_DELAY));
}

#[test]
fn unreadable_hints_fall_back_to_the_default_delay() {
    let mut client = NeosApiClient::new("agent".to_string());
    let headers = [("X-Rate-Limit-Reset", "soon"), ("Retry-After", "-3")];
    assert!(client.handle_response(response(429, &headers, b""), 40, NOON).is_err());
    assert_eq!(client.blocked_until(), Some(40 + DEFAULT_RATE_LIMIT_DELAY));
}

#[test]
fn reset_time_is_preferred_over_retry_after() {
    let mut client = NeosApiClient::new("agent".to_string());
    let headers = [("Retry-After", "5"), ("x-rate-limit-reset", "2022-05-01T12:00:01.5Z")];
    assert!(client.handle_response(response(429, &headers, b""), 1_000, NOON).is_err());
    assert_eq!(client.blocked_until(), Some(1_500_001_000));
}

#[test]
fn reset_time_with_an_offset_is_the_same_instant() {
    let mut client = NeosApiClient::new("agent".to_string());
    let headers = [("X-Rate-Limit-Reset", "2022-05-01 14:00:03+02:00")];
    assert!(client.handle_response(response(429, &headers, b""), 0, NOON).is_err());
    assert_eq!(client.blocked_until(), Some(3_000_000_000));
}

#[test]
fn reset_time_in_the_past_changes_nothing() {
    let mut client = NeosApiClient::new("agent".to_string());
    let headers = [("X-Rate-Limit-Reset", "2022-05-01T11:59:59Z"), ("Retry-After", "5")];
    let outcome = client.handle_response(response(429, &headers, b"x"), 1_000, NOON);
    assert_eq!(outcome, Err(RequestError::ResponseCode(429, "x".to_string())));
    assert_eq!(client.blocked_until(), None);
}

#[test]
fn exhausted_quota_delays_but_succeeds() {
    let mut client = NeosApiClient::new("agent".to_string());
    let headers = [("X-Rate-Limit-Remaining", "0"), ("Retry-After", "1")];
    let res = response(200, &headers, b"[]");
    assert_eq!(client.handle_response(res.clone(), 50, NOON), Ok(res));
    assert_eq!(client.blocked_until(), Some(1_000_000_050));
    assert_eq!(
        client.basic_api_request(1_000_000_000, Method::Get, "sessions"),
        Dispatch::Wait(50)
    );
}

#[test]
fn remaining_quota_changes_nothing() {
    let mut client = NeosApiClient::new("agent".to_string());
    let headers = [("X-Rate-Limit-Remaining", "12"), ("Retry-After", "1")];
    let res = response(204, &headers, b"");
    assert_eq!(client.handle_response(res.clone(), 50, NOON), Ok(res));
    assert_eq!(client.blocked_until(), None);
    let res = response(200, &[("X-Rate-Limit-Remaining", "none")], b"");
    assert_eq!(client.handle_response(res.clone(), 50, NOON), Ok(res));
    assert_eq!(client.blocked_until(), None);
}

#[test]
fn exhausted_quota_on_a_failure_still_fails() {
    let mut client = NeosApiClient::new("agent".to_string());
    let res = response(199, &[("X-Rate-Limit-Remaining", "0")], b"early");
    assert_eq!(
        client.handle_response(res, 50, NOON),
        Err(RequestError::ResponseCode(199, "early".to_string()))
    );
    assert_eq!(client.blocked_until(), Some(50 + DEFAULT_RATE_LIMIT_DELAY));
}

#[test]
fn statuses_outside_of_success_are_errors() {
    let mut client = NeosApiClient::new("agent".to_string());
    for status in [-1, 0, 100, 199, 300, 301, 401, 404, 500] {
        assert_eq!(
            client.handle_response(response(status, &[], b"no"), 0, NOON),
            Err(RequestError::ResponseCode(status, "no".to_string()))
        );
    }
    for status in [200, 201, 204, 299] {
        let res = response(status, &[], b"yes");
        assert_eq!(client.handle_response(res.clone(), 0, NOON), Ok(res));
    }
    assert_eq!(client.blocked_until(), None);
}

#[test]
fn a_body_that_is_not_text_reads_as_empty() {
    let mut client = NeosApiClient::new("agent".to_string());
    assert_eq!(
        client.handle_response(response(500, &[], &[0xff, 0xfe]), 0, NOON),
        Err(RequestError::ResponseCode(500, String::new()))
    );
    assert_eq!(
        client.handle_response(response(500, &[], "häh".as_bytes()), 0, NOON),
        Err(RequestError::ResponseCode(500, "häh".to_string()))
    );
}

#[test]
fn a_later_response_overwrites_the_deadline() {
    let mut client = NeosApiClient::new("agent".to_string());
    assert!(client.handle_response(response(429, &[("Retry-After", "9")], b""), 0, NOON).is_err());
    assert_eq!(client.blocked_until(), Some(9_000_000_000));
    assert!(client.handle_response(response(429, &[("Retry-After", "1")], b""), 0, NOON).is_err());
    assert_eq!(client.blocked_until(), Some(1_000_000_000));
}

#[test]
fn deadlines_stop_at_the_end_of_the_clock() {
    assert_eq!(deadline_from_hints(None, Some(u64::MAX), 5, NOON), Some(u64::MAX));
    assert_eq!(deadline_from_hints(None, Some(0), 5, NOON), Some(5));
    assert_eq!(deadline_from_hints(None, None, u64::MAX - 1, NOON), Some(u64::MAX));
    let far = WallTime { secs: i64::MAX, nanos: 999_999_999 };
    assert_eq!(deadline_from_hints(Some(far), Some(1), 5, NOON), Some(u64::MAX));
    let early = WallTime { secs: i64::MIN, nanos: 0 };
    assert_eq!(deadline_from_hints(Some(early), Some(1), 5, NOON), None);
    assert_eq!(deadline_from_hints(Some(NOON), Some(1), 5, NOON), Some(5));
    let leap = WallTime { secs: NOON.secs - 1, nanos: 1_000_000_001 };
    assert_eq!(deadline_from_hints(Some(leap), None, 5, NOON), Some(6));
}

#[test]
fn tracker_forgets_a_deadline_that_has_come() {
    let mut tracker = RateLimitTracker::new();
    assert_eq!(tracker.blocked_until(), None);
    assert_eq!(tracker.wait_if_blocked(10), 0);
    let headers = vec![Field { name: "retry-after".to_string(), value: "+2".to_string() }];
    tracker.apply_from_response(&headers, 429, 10, NOON);
    assert_eq!(tracker.blocked_until(), Some(2_000_000_010));
    assert_eq!(tracker.wait_if_blocked(11), 1_999_999_999);
    assert_eq!(tracker.blocked_until(), Some(2_000_000_010));
    assert_eq!(tracker.wait_if_blocked(2_000_000_010), 0);
    assert_eq!(tracker.blocked_until(), None);
    tracker.apply_from_response(&headers, 200, 10, NOON);
    assert_eq!(tracker.blocked_until(), None);
}

#[test]
fn rate_limit_is_waited_out_before_the_spacing() {
    let mut client = NeosApiClient::new("agent".to_string());
    assert!(matches!(client.basic_api_request(0, Method::Get, "a"), Dispatch::Send(_)));
    assert!(client.handle_response(response(429, &[("Retry-After", "1")], b""), 0, NOON).is_err());
    assert_eq!(client.basic_api_request(10, Method::Get, "a"), Dispatch::Wait(999_999_990));
    assert_eq!(client.last_request_time(), Some(0));
    assert!(matches!(
        client.basic_api_request(1_000_000_000, Method::Get, "a"),
        Dispatch::Send(_)
    ));
    assert_eq!(client.last_request_time(), Some(1_000_000_000));
}
