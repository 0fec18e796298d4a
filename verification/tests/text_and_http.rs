use b3_iot::http::get::{place_body, GetStep, HttpGet};
use b3_iot::http::range::{RangeGet, RangeStep};
use b3_iot::http::{
    location_index, range_header, range_request, redirect_target, status_is_redirection, status_is_successful,
    HeaderField, RedirectError,
};
use b3_iot::text::{bytes_eq_ignore_ascii_case, bytes_have_prefix, parse_u32, push_decimal};

fn header(name: &str, value: &[u8]) -> HeaderField {
    HeaderField { name: name.as_bytes().to_vec(), value: value.to_vec() }
}

fn decimal(n: usize) -> Vec<u8> {
    let mut v = Vec::new();
    push_decimal(&mut v, n);
    v
}

#[test]
fn parse_u32_accepts_plain_and_plus_sign() {
    assert_eq!(parse_u32(b"0"), Some(0));
    assert_eq!(parse_u32(b"42"), Some(42));
    assert_eq!(parse_u32(b"+42"), Some(42));
    assert_eq!(parse_u32(b"0007"), Some(7));
    assert_eq!(parse_u32(b"4294967295"), Some(u32::MAX));
}

#[test]
fn parse_u32_refuses_malformed_text() {
    assert_eq!(parse_u32(b""), None);
    assert_eq!(parse_u32(b"+"), None);
    assert_eq!(parse_u32(b"-1"), None);
    assert_eq!(parse_u32(b"12a"), None);
    assert_eq!(parse_u32(b" 1"), None);
    assert_eq!(parse_u32(b"4294967296"), None);
    assert_eq!(parse_u32(b"99999999999999999999"), None);
}

#[test]
fn parse_u32_agrees_with_std() {
    for text in ["0", "1", "+0", "00", "65535", "4294967295", "4294967296", "", "+", "-0", "a", "1 "] {
        assert_eq!(parse_u32(text.as_bytes()), text.parse::<u32>().ok(), "{text}");
    }
}

#[test]
fn decimal_formatting() {
    assert_eq!(decimal(0), b"0".to_vec());
    assert_eq!(decimal(7), b"7".to_vec());
    assert_eq!(decimal(10), b"10".to_vec());
    assert_eq!(decimal(1234567890), b"1234567890".to_vec());
    assert_eq!(decimal(usize::MAX), usize::MAX.to_string().into_bytes());
}

#[test]
fn case_insensitive_and_prefix() {
    assert!(bytes_eq_ignore_ascii_case(b"LoCaTiOn", b"location"));
    assert!(!bytes_eq_ignore_ascii_case(b"locations", b"location"));
    assert!(!bytes_eq_ignore_ascii_case(b"loc@tion", b"location"));
    assert!(bytes_have_prefix(b"https://x", b"https://"));
    assert!(!bytes_have_prefix(b"http://x", b"https://"));
    assert!(!bytes_have_prefix(b"https:/", b"https://"));
}

#[test]
fn status_classes() {
    assert!(status_is_successful(200));
    assert!(status_is_successful(299));
    assert!(!status_is_successful(300));
    assert!(status_is_redirection(301));
    assert!(!status_is_redirection(206 + 200));
    assert!(!status_is_redirection(199));
}

#[test]
fn range_header_text() {
    assert_eq!(range_header(0, 1023), b"bytes=0-1023".to_vec());
    assert_eq!(range_header(32768, 65535), b"bytes=32768-65535".to_vec());
}

#[test]
fn first_location_header_wins() {
    let headers = vec![
        header("Content-Type", b"text/html"),
        header("LOCATION", b"https://a"),
        header("location", b"https://b"),
    ];
    assert_eq!(location_index(&headers), Some(1));
    assert_eq!(location_index(&headers[..1]), None);
}

#[test]
fn redirect_target_follows_https_location() {
    let headers = vec![header("Location", b"https://example.com/fw.bin")];
    assert_eq!(redirect_target(302, 0, &headers), Ok(b"https://example.com/fw.bin".to_vec()));
    assert_eq!(redirect_target(307, 2, &headers), Ok(b"https://example.com/fw.bin".to_vec()));
    let unicode = vec![header("Location", "https://example.com/grüße".as_bytes())];
    assert_eq!(redirect_target(303, 1, &unicode), Ok("https://example.com/grüße".as_bytes().to_vec()));
    let truncated = vec![header("Location", &"https://example.com/ü".as_bytes()[..21])];
    assert_eq!(redirect_target(303, 1, &truncated), Err(RedirectError::LocationNotUtf8));
}

#[test]
fn redirect_target_errors() {
    let ok = vec![header("Location", b"https://example.com/")];
    assert_eq!(redirect_target(200, 0, &ok), Err(RedirectError::NotRedirection));
    assert_eq!(redirect_target(404, 0, &ok), Err(RedirectError::NotRedirection));
    assert_eq!(redirect_target(302, 3, &ok), Err(RedirectError::RedirectLimit));
    assert_eq!(redirect_target(302, 0, &[]), Err(RedirectError::MissingLocation));
    let insecure = vec![header("location", b"http://example.com/")];
    assert_eq!(redirect_target(301, 0, &insecure), Err(RedirectError::InsecureLocation));
    let empty = vec![header("location", b"")];
    assert_eq!(redirect_target(301, 0, &empty), Err(RedirectError::InsecureLocation));
    let binary = vec![header("location", &[0x68, 0xff])];
    assert_eq!(redirect_target(301, 0, &binary), Err(RedirectError::LocationNotUtf8));
    let mut long = b"https://".to_vec();
    long.resize(2049, b'a');
    let too_long = vec![header("location", &long)];
    assert_eq!(redirect_target(301, 0, &too_long), Err(RedirectError::LocationTooLong));
    long.truncate(2048);
    let fits = vec![header("location", &long)];
    assert_eq!(redirect_target(301, 0, &fits), Ok(long.clone()));
}

#[test]
fn get_reads_success_body() {
    let mut get = HttpGet::new(b"https://host/update.json").unwrap();
    assert_eq!(get.on_response(200, &[]), GetStep::ReadBody);
    assert_eq!(get.url(), b"https://host/update.json");
}

#[test]
fn get_follows_up_to_three_redirects() {
    let mut get = HttpGet::new(b"https://host/a").unwrap();
    let to = |u: &str| vec![header("Location", u.as_bytes())];
    assert_eq!(get.on_response(302, &to("https://host/b")), GetStep::Follow);
    assert_eq!(get.url(), b"https://host/b");
    assert_eq!(get.on_response(301, &to("https://host/c")), GetStep::Follow);
    assert_eq!(get.on_response(301, &to("https://host/d")), GetStep::Follow);
    assert_eq!(get.url(), b"https://host/d");
    assert_eq!(get.on_response(301, &to("https://host/e")), GetStep::Fail(RedirectError::RedirectLimit));
    assert_eq!(get.url(), b"https://host/d");
    assert_eq!(get.on_response(204, &[]), GetStep::ReadBody);
}

#[test]
fn get_refuses_long_url_and_errors() {
    let long = vec![b'h'; 2049];
    assert!(HttpGet::new(&long).is_none());
    assert!(HttpGet::new(&long[..2048]).is_some());
    let mut get = HttpGet::new(b"https://host/a").unwrap();
    assert_eq!(get.on_response(500, &[]), GetStep::Fail(RedirectError::NotRedirection));
}

#[test]
fn place_body_moves_body_to_front() {
    let mut buffer = [1u8, 2, 3, 4, 5, 6];
    assert_eq!(place_body(&mut buffer, 1000, 1003, 2), Ok(2));
    assert_eq!(buffer, [4, 5, 3, 4, 5, 6]);
    let mut same = [9u8, 8, 7];
    assert_eq!(place_body(&mut same, 50, 50, 3), Ok(3));
    assert_eq!(same, [9, 8, 7]);
    let mut overlap = [0u8, 1, 2, 3, 4];
    assert_eq!(place_body(&mut overlap, 0, 1, 4), Ok(4));
    assert_eq!(overlap, [1, 2, 3, 4, 4]);
}

#[test]
fn place_body_refuses_body_before_buffer() {
    let mut buffer = [1u8, 2, 3];
    assert_eq!(place_body(&mut buffer, 100, 99, 1), Err(()));
    assert_eq!(buffer, [1, 2, 3]);
}

#[test]
fn range_get_refuses_bad_ranges() {
    assert!(RangeGet::new(b"https://h/f", 10, 9, 100).is_none());
    assert!(RangeGet::new(b"https://h/f", 0, 100, 100).is_none());
    assert!(RangeGet::new(b"https://h/f", 0, 99, 100).is_some());
    assert!(RangeGet::new(b"https://h/f", 5, 5, 1).is_some());
}

#[test]
fn range_get_happy_path() {
    let mut r = RangeGet::new(b"https://h/f", 100, 199, 256).unwrap();
    assert_eq!(r.expected(), 100);
    assert_eq!(r.range_header(), b"bytes=100-199".to_vec());
    assert_eq!(r.begin_attempt(), RangeStep::Send);
    assert_eq!(r.request_url(), b"https://h/f");
    assert_eq!(r.on_response(206, Some(100), &[]), RangeStep::Read);
    assert_eq!(r.on_body(60), RangeStep::Read);
    assert_eq!(r.received_len(), 60);
    assert_eq!(r.on_body(40), RangeStep::Done(100));
}

#[test]
fn range_get_follows_redirect_then_reads() {
    let mut r = RangeGet::new(b"https://h/f", 0, 9, 10).unwrap();
    assert_eq!(r.begin_attempt(), RangeStep::Send);
    let loc = vec![header("Location", b"https://cdn/f")];
    assert_eq!(r.on_response(302, None, &loc), RangeStep::Send);
    assert_eq!(r.request_url(), b"https://cdn/f");
    assert_eq!(r.on_response(206, Some(10), &[]), RangeStep::Read);
    assert_eq!(r.on_body(10), RangeStep::Done(10));
}

#[test]
fn range_get_retries_five_times() {
    let mut r = RangeGet::new(b"https://h/f", 0, 9, 10).unwrap();
    assert_eq!(r.begin_attempt(), RangeStep::Send);
    for _ in 0..4 {
        assert_eq!(r.on_failure(), RangeStep::Wait);
        assert_eq!(r.begin_attempt(), RangeStep::Send);
    }
    assert_eq!(r.on_failure(), RangeStep::Fail);
}

#[test]
fn range_get_failed_checks_retry() {
    let mut r = RangeGet::new(b"https://h/f", 0, 9, 10).unwrap();
    r.begin_attempt();
    assert_eq!(r.on_response(206, Some(11), &[]), RangeStep::Wait);
    r.begin_attempt();
    assert_eq!(r.on_response(200, Some(10), &[]), RangeStep::Wait);
    r.begin_attempt();
    assert_eq!(r.on_response(206, Some(10), &[]), RangeStep::Read);
    assert_eq!(r.on_body(4), RangeStep::Read);
    assert_eq!(r.on_body(0), RangeStep::Wait);
    assert_eq!(r.begin_attempt(), RangeStep::Send);
    assert_eq!(r.received_len(), 0);
    assert_eq!(r.on_response(206, None, &[]), RangeStep::Wait);
    assert_eq!(r.begin_attempt(), RangeStep::Send);
    assert_eq!(r.on_failure(), RangeStep::Fail);
}

#[test]
fn range_get_long_url_fails_every_attempt() {
    let long = vec![b'x'; 3000];
    let mut r = RangeGet::new(&long, 0, 0, 1).unwrap();
    for _ in 0..4 {
        assert_eq!(r.begin_attempt(), RangeStep::Wait);
    }
    assert_eq!(r.begin_attempt(), RangeStep::Fail);
}

fn pairs(headers: Vec<HeaderField>) -> Vec<(Vec<u8>, Vec<u8>)> {
    headers.into_iter().map(|h| (h.name, h.value)).collect()
}

#[test]
fn range_requests_ask_to_close_the_connection() {
    assert_eq!(
        pairs(range_request(100, 199)),
        vec![
            (b"Range".to_vec(), b"bytes=100-199".to_vec()),
            (b"Connection".to_vec(), b"close".to_vec()),
        ]
    );
    let r = RangeGet::new(b"https://h/f", 7, 8, 2).unwrap();
    assert_eq!(
        pairs(r.request_headers()),
        vec![(b"Range".to_vec(), b"bytes=7-8".to_vec()), (b"Connection".to_vec(), b"close".to_vec())]
    );
}
