use neos::api_client::{FailureKind, RequestError};
use neos::clock::{advance, parse_timestamp, WallTime};
use neos::http::{lookup_field, Field, Method, Request, Response};
use neos::json::{frame_object, parse_str, write_object, Json, Member, Written};
use neos::text::{
    bool_text, i64_to_decimal, parse_u32, parse_u64, starts_with, str_eq,
    str_eq_ignore_ascii_case, to_ascii_lower, u64_to_decimal,
};

#[test]
fn unsigned_numbers_are_read_like_std_reads_them() {
    let texts = [
        "0", "7", "007", "+5", "+", "", "-0", "-1", " 1", "1 ", "12a", "１２", "++1", "1+",
        "18446744073709551615", "18446744073709551616", "99999999999999999999999", "+0018",
        "4294967295", "4294967296",
    ];
    for text in texts {
        assert_eq!(parse_u64(text), text.parse::<u64>().ok(), "u64 of {text:?}");
        assert_eq!(parse_u32(text), text.parse::<u32>().ok(), "u32 of {text:?}");
    }
    assert_eq!(parse_u64("18446744073709551615"), Some(u64::MAX));
    assert_eq!(parse_u64("18446744073709551616"), None);
    assert_eq!(parse_u32("4294967296"), None);
}

#[test]
fn numbers_are_written_in_decimal() {
    for n in [0_u64, 1, 9, 10, 11, 99, 100, 101, 65_535, 1_000_000_007, u64::MAX] {
        assert_eq!(u64_to_decimal(n), n.to_string());
        assert_eq!(parse_u64(&u64_to_decimal(n)), Some(n));
    }
    for n in [0_i64, -1, 1, -10, 429, -429, i64::MAX, i64::MIN] {
        assert_eq!(i64_to_decimal(n), n.to_string());
    }
    assert_eq!(bool_text(true), "true");
    assert_eq!(bool_text(false), "false");
}

#[test]
fn texts_are_compared() {
    assert!(str_eq("", ""));
    assert!(str_eq("aé", "aé"));
    assert!(!str_eq("a", "A"));
    assert!(!str_eq("a", "ab"));
    assert!(str_eq_ignore_ascii_case("Retry-After", "retry-after"));
    assert!(str_eq_ignore_ascii_case("X-RATE", "x-rate"));
    assert!(!str_eq_ignore_ascii_case("É", "é"));
    assert!(!str_eq_ignore_ascii_case("ab", "abc"));
    assert!(!str_eq_ignore_ascii_case("a-b", "a_b"));
    assert_eq!(to_ascii_lower('A'), 'a');
    assert_eq!(to_ascii_lower('Z'), 'z');
    assert_eq!(to_ascii_lower('['), '[');
    assert_eq!(to_ascii_lower('@'), '@');
    assert_eq!(to_ascii_lower('é'), 'é');
    assert!(starts_with("U-abc", "U-"));
    assert!(starts_with("U-", "U-"));
    assert!(starts_with("x", ""));
    assert!(!starts_with("U", "U-"));
    assert!(!starts_with("u-abc", "U-"));
}

#[test]
fn errors_read_as_lines() {
    assert_eq!(
        RequestError::ResponseCode(404, "Not found".to_string()).message(),
        "RequestError: Status code 404 - Not found"
    );
    assert_eq!(
        RequestError::ResponseCode(-1, String::new()).message(),
        "RequestError: Status code -1 - "
    );
    assert_eq!(
        RequestError::Deserialization("bad json".to_string()).message(),
        "RequestError: bad json"
    );
    assert_eq!(RequestError::Other("timeout".to_string()).message(), "RequestError: timeout");
    assert_eq!(RequestError::Other("x".to_string()).status_code(), None);
    assert_eq!(RequestError::Deserialization("x".to_string()).status_code(), None);
    assert_eq!(RequestError::ResponseCode(429, "x".to_string()).status_code(), Some(429));
}

#[test]
fn failures_map_to_errors_by_their_kind() {
    let message = || "it broke".to_string();
    assert_eq!(
        RequestError::from_kind(FailureKind::InvalidUtf8InResponse, message()),
        RequestError::Deserialization(message())
    );
    assert_eq!(
        RequestError::from_kind(FailureKind::InvalidUtf8InBody, message()),
        RequestError::Deserialization(message())
    );
    assert_eq!(
        RequestError::from_kind(FailureKind::SerdeJson, message()),
        RequestError::Deserialization(message())
    );
    assert_eq!(
        RequestError::from_kind(FailureKind::Other, message()),
        RequestError::Other(message())
    );
    assert_eq!(
        RequestError::from_kind(FailureKind::Other, String::new()),
        RequestError::Other(String::new())
    );
}

#[test]
fn timestamps_are_read_by_chrono() {
    assert_eq!(
        parse_timestamp("2022-05-01T12:00:00Z"),
        Some(WallTime { secs: 1_651_406_400, nanos: 0 })
    );
    assert_eq!(
        parse_timestamp("2022-05-01 14:00:00.25+02:00"),
        Some(WallTime { secs: 1_651_406_400, nanos: 250_000_000 })
    );
    assert_eq!(
        parse_timestamp("1969-12-31T23:59:59.999999999Z"),
        Some(WallTime { secs: -1, nanos: 999_999_999 })
    );
    assert_eq!(
        parse_timestamp("2016-12-31T23:59:60Z"),
        Some(WallTime { secs: 1_483_228_799, nanos: 1_000_000_000 })
    );
    assert_eq!(parse_timestamp("1651406400"), None);
    assert_eq!(parse_timestamp("2022-05-01"), None);
    assert_eq!(parse_timestamp(""), None);
    assert_eq!(parse_timestamp("2022-13-01T12:00:00Z"), None);
    assert_eq!(WallTime { secs: -1, nanos: 5 }.as_nanos(), -999_999_995);
    assert_eq!(
        WallTime { secs: i64::MAX, nanos: u32::MAX }.as_nanos(),
        i64::MAX as i128 * 1_000_000_000 + u32::MAX as i128
    );
}

#[test]
fn times_are_written_by_their_crates() {
    let at = WallTime { secs: 1_431_648_000, nanos: 0 };
    assert_eq!(at.to_utc_text().as_deref(), Some("2015-05-15 00:00:00 UTC"));
    let at = WallTime { secs: 947_638_923, nanos: 4_000_000 };
    assert_eq!(at.to_utc_text().as_deref(), Some("2000-01-12 01:02:03.004 UTC"));
    assert_eq!(WallTime { secs: i64::MAX, nanos: 0 }.to_utc_text(), None);
    assert_eq!(WallTime { secs: 0, nanos: 2_000_000_000 }.to_utc_text(), None);

    let at = WallTime { secs: 1_546_300_800, nanos: 0 };
    let expected = time::OffsetDateTime::from_unix_timestamp(1_546_300_800).unwrap().to_string();
    assert!(expected.starts_with("2019-01-01 "));
    assert_eq!(at.to_offset_text(), Some(expected));
    assert_eq!(WallTime { secs: i64::MAX, nanos: 0 }.to_offset_text(), None);
}

#[test]
fn readings_move_forward_up_to_the_end() {
    assert_eq!(advance(0, 0), 0);
    assert_eq!(advance(5, 7), 12);
    assert_eq!(advance(u64::MAX - 1, 1), u64::MAX);
    assert_eq!(advance(u64::MAX - 1, 2), u64::MAX);
    assert_eq!(advance(1, u128::MAX), u64::MAX);
}

#[test]
fn fields_are_found_by_name() {
    let fields = vec![
        Field { name: "Content-Type".to_string(), value: "a".to_string() },
        Field { name: "content-type".to_string(), value: "b".to_string() },
        Field { name: "X".to_string(), value: String::new() },
    ];
    assert_eq!(lookup_field(&fields, "CONTENT-TYPE"), Some("a"));
    assert_eq!(lookup_field(&fields, "x"), Some(""));
    assert_eq!(lookup_field(&fields, "content"), None);
    assert_eq!(lookup_field(&Vec::new(), "x"), None);
    let res = Response {
        status_code: 200,
        reason_phrase: "OK".to_string(),
        headers: fields,
        url: String::new(),
        body: vec![b'o', b'k'],
    };
    assert_eq!(res.header("x"), Some(""));
    assert_eq!(res.header("y"), None);
    assert_eq!(res.as_str(), Some("ok"));
    assert_eq!(res.text_or_empty(), "ok");
    let broken = Response { body: vec![0xc3, 0x28], ..res };
    assert_eq!(broken.as_str(), None);
    assert_eq!(broken.text_or_empty(), "");
}

#[test]
fn requests_are_built_step_by_step() {
    let bare = Request::new(Method::Custom("PURGE".to_string()), "http://x/".to_string());
    assert_eq!(bare.method, Method::Custom("PURGE".to_string()));
    assert_eq!(bare.url, "http://x/");
    assert!(bare.headers.is_empty() && bare.params.is_empty());
    assert_eq!(bare.body, None);
    assert_eq!(bare.max_redirects, 100);
    assert_eq!(bare.max_status_line_length, None);
    assert_eq!(bare.max_headers_size, None);
    assert_eq!(bare.timeout, None);
    let full = bare
        .with_header("A", "1")
        .with_param("k", "v")
        .with_header("a", "2")
        .with_param("k", "w")
        .with_body("old".to_string())
        .with_json("{}".to_string())
        .with_timeout(3)
        .with_max_redirects(0)
        .with_max_headers_size(Some(10))
        .with_max_status_line_length(None);
    assert_eq!(full.header("a"), Some("1"));
    assert_eq!(full.headers.len(), 3);
    assert_eq!(full.headers[2].name, "Content-Type");
    assert_eq!(full.headers[2].value, "application/json; charset=UTF-8");
    assert_eq!(full.params.len(), 2);
    assert_eq!(full.params[1].value, "w");
    assert_eq!(full.body.as_deref(), Some("{}"));
    assert_eq!(full.timeout, Some(3));
    assert_eq!(full.max_redirects, 0);
    assert_eq!(full.max_headers_size, Some(10));
    assert_eq!(full.max_status_line_length, None);
    let again = full.with_header("A", "3").with_header("Content-Type", "text/plain");
    assert_eq!(
        again.headers,
        vec![
            Field { name: "A".to_string(), value: "3".to_string() },
            Field { name: "a".to_string(), value: "2".to_string() },
            Field { name: "Content-Type".to_string(), value: "text/plain".to_string() },
        ]
    );
}

#[test]
fn objects_are_written_as_json() {
    assert_eq!(write_object(&Vec::new()), Ok("{}".to_string()));
    let members = vec![
        Member::new("a\"b", Json::Text("line\nbreak \u{1F600} é".to_string())),
        Member::new("n", Json::Null),
        Member::new("t", Json::Bool(true)),
        Member::new("f", Json::Bool(false)),
        Member::new("o", Json::optional_text(&None)),
        Member::new("s", Json::optional_text(&Some("x".to_string()))),
    ];
    let text = write_object(&members).unwrap();
    assert_eq!(
        text,
        "{\"a\\\"b\":\"line\\nbreak \u{1F600} é\",\"n\":null,\"t\":true,\"f\":false,\"o\":null,\
         \"s\":\"x\"}"
    );
    let value: serde_json::Value = serde_json::from_str(&text).unwrap();
    assert_eq!(value["a\"b"], "line\nbreak \u{1F600} é");
    assert!(value["n"].is_null());
    assert_eq!(value["t"], true);
    assert_eq!(value["f"], false);
    assert_eq!(value.as_object().unwrap().len(), 6);
}

#[test]
fn json_strings_are_read() {
    assert_eq!(parse_str("\"abc\""), Ok("abc"));
    assert_eq!(parse_str(" \"\" "), Ok(""));
    assert!(parse_str("abc").is_err());
    assert!(parse_str("\"a\\nb\"").is_err());
    assert!(parse_str("12").is_err());
    assert!(parse_str("\"a\" \"b\"").is_err());
}

#[test]
fn written_members_are_framed() {
    let part = |key: &str, value: &str| Written { key: key.to_string(), value: value.to_string() };
    assert_eq!(frame_object(&Vec::new()), "{}");
    assert_eq!(frame_object(&vec![part("\"a\"", "1")]), "{\"a\":1}");
    assert_eq!(
        frame_object(&vec![part("\"a\"", "null"), part("\"b\"", "\"x\""), part("c", "")]),
        "{\"a\":null,\"b\":\"x\",c:}"
    );
}
