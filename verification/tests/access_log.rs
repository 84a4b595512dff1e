use chrono::DateTime;
use logwarden::net::IpAddress;
use logwarden::nginx_plugin::nginx::{NginxError, NginxLog, NginxPatterns};
use logwarden::time::Timestamp;

const LINE: &str = "203.0.113.7 - - [10/Oct/2023:13:55:36.026 +0200] \"GET /index.html HTTP/1.1\" 200 2326 \"-\" \"Mozilla/5.0 (X11; Linux x86_64)\"";

fn patterns() -> NginxPatterns {
    NginxPatterns::new().expect("the line pattern compiles")
}

fn with(method: &str, status: &str, bytes: &str) -> String {
    format!(
        "203.0.113.7 - bob [10/Oct/2023:13:55:36.026 +0200] \"{} /a/b.html HTTP/2.0\" {} {} \"http://example.org/\" \"curl/8.0\"",
        method, status, bytes
    )
}

#[test]
fn request_is_read_field_by_field() {
    let p = patterns();
    assert!(p.is_match(LINE));
    let log = NginxLog::try_new(&p, LINE).unwrap().unwrap();
    assert_eq!(log.ip_address(), IpAddress::V4(203, 0, 113, 7));
    let expected =
        DateTime::parse_from_str("2023-10-10 11:55:36.026 +0000", "%Y-%m-%d %H:%M:%S%.3f %z")
            .unwrap();
    assert_eq!(
        log.date_time(),
        Timestamp { seconds: expected.timestamp(), nanos: expected.timestamp_subsec_nanos() }
    );
    assert_eq!(log.date_time(), Timestamp { seconds: 1696938936, nanos: 26_000_000 });
    assert_eq!(log.http_method(), "GET");
    assert_eq!(log.path(), "/index.html");
    assert_eq!(log.http_version(), "HTTP/1.1");
    assert_eq!(log.status(), 200);
    assert_eq!(log.bytes_sent(), 2326);
    assert_eq!(log.user_agent(), "Mozilla/5.0 (X11; Linux x86_64)");
}

#[test]
fn line_that_is_no_request() {
    let p = patterns();
    assert!(!p.is_match("Apr 11 14:11:05 host sshd[1]: hello"));
    assert_eq!(
        NginxLog::try_new(&p, "Apr 11 14:11:05 host sshd[1]: hello").unwrap().err(),
        Some(NginxError::LogParseError)
    );
    assert_eq!(NginxLog::try_new(&p, "").unwrap().err(), Some(NginxError::LogParseError));
}

#[test]
fn request_whose_address_or_time_is_none_cannot_be_read() {
    let p = patterns();
    let bad_address = LINE.replace("203.0.113.7", "203.0.113.700");
    assert!(p.is_match(&bad_address));
    assert!(NginxLog::try_new(&p, &bad_address).is_none());
    let bad_time = LINE.replace("10/Oct/2023", "10/Okt/2023");
    assert!(NginxLog::try_new(&p, &bad_time).is_none());
    let no_zone = LINE.replace(" +0200", "");
    assert!(NginxLog::try_new(&p, &no_zone).is_none());
}

#[test]
fn fields_that_fail() {
    let p = patterns();
    assert_eq!(
        NginxLog::try_new(&p, &with("GÉT", "200", "1")).unwrap().err(),
        Some(NginxError::InvalidMethod)
    );
    assert_eq!(
        NginxLog::try_new(&p, &with("GET", "20", "1")).unwrap().err(),
        Some(NginxError::InvalidStatusCode)
    );
    assert_eq!(
        NginxLog::try_new(&p, &with("GET", "099", "1")).unwrap().err(),
        Some(NginxError::InvalidStatusCode)
    );
    assert_eq!(
        NginxLog::try_new(&p, &with("GET", "2000", "1")).unwrap().err(),
        Some(NginxError::InvalidStatusCode)
    );
    assert_eq!(
        NginxLog::try_new(&p, &with("GET", "200", "99999999999999999999999")).unwrap().err(),
        Some(NginxError::InvalidByteCount)
    );
    assert_eq!(
        NginxLog::try_new(&p, &with("GÉT", "20", "99999999999999999999999")).unwrap().err(),
        Some(NginxError::InvalidMethod)
    );
    let log = NginxLog::try_new(&p, &with("purge_2", "999", "0")).unwrap().unwrap();
    assert_eq!(log.http_method(), "purge_2");
    assert_eq!(log.status(), 999);
    assert_eq!(log.bytes_sent(), 0);
    assert_eq!(log.path(), "/a/b.html");
    assert_eq!(log.http_version(), "HTTP/2.0");
    assert_eq!(log.user_agent(), "curl/8.0");
    let log = NginxLog::try_new(&p, &with("GET", "100", "18446744073709551615")).unwrap().unwrap();
    assert_eq!(log.status(), 100);
    assert_eq!(log.bytes_sent(), usize::MAX);
}

#[test]
fn readable_line_is_read_the_same_either_way() {
    let p = patterns();
    let direct = NginxLog::new(&p, LINE).unwrap();
    let tried = NginxLog::try_new(&p, LINE).unwrap().unwrap();
    assert_eq!(direct.ip_address(), tried.ip_address());
    assert_eq!(direct.date_time(), tried.date_time());
    assert_eq!(direct.path(), tried.path());
    let groups: Vec<Option<String>> = vec![
        None,
        None,
        None,
        None,
        Some(String::from("POST")),
        Some(String::from("/x")),
        Some(String::from("HTTP/1.0")),
        Some(String::from("404")),
        Some(String::from("12")),
        None,
        Some(String::from("agent")),
    ];
    let made = NginxLog::from_captures(
        IpAddress::V4(1, 2, 3, 4),
        Timestamp { seconds: 5, nanos: 6 },
        &groups,
    )
    .unwrap();
    assert_eq!(made.http_method(), "POST");
    assert_eq!(made.status(), 404);
    assert_eq!(made.bytes_sent(), 12);
    assert_eq!(made.user_agent(), "agent");
    assert_eq!(
        NginxLog::from_captures(IpAddress::V4(1, 2, 3, 4), Timestamp { seconds: 5, nanos: 6 }, &Vec::new())
            .err(),
        Some(NginxError::InvalidMethod)
    );
}
