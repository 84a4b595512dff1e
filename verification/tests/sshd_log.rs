use chrono::{Datelike, NaiveDateTime, Utc};
use logwarden::net::IpAddress;
use logwarden::output_log::log::{RemoteEndpoint, StructuredLog};
use logwarden::output_log::{tally_line, tally_lines};
use logwarden::ssh_log::consts::LogPatterns;
use logwarden::ssh_log::enums::{SSHDLogError, SSHDLogType};
use logwarden::ssh_log::utils::{
    parse_date, parse_host_name, parse_ip_address, parse_log_id, parse_port, parse_username,
};
use logwarden::ssh_log::SSHDLog;
use logwarden::text::parse_i64;
use logwarden::time::Timestamp;

const TEST_TIME: &'static str = "Apr 13 13:40:35";
const TEST_HOST: &'static str = "devinserver94";
const TEST_USERNAME: &'static str = "april_fools";
const TEST_ID: i64 = 8675309i64;
const TEST_IPV4_STR: &'static str = "192.168.1.1";
const TEST_IPV6_STR: &'static str = "2601:600:c87f:8a67:42b0:76ff:fedd:44e";
const TEST_PORT: &'static str = "8675";

const FIRST_LOG: &'static str = "Apr 11 14:11:05 devinserver sshd[2567619]: Connection closed by invalid user debian 190.1.202.12 port 52218 [preauth]";

fn patterns() -> LogPatterns {
    LogPatterns::new().expect("the log patterns compile")
}

fn create_log(args: [&str; 6]) -> String {
    format!(
        "{} {} sshd[{}]: Invalid user {} from {} port {}\n",
        args[0], args[1], args[2], args[3], args[4], args[5]
    )
}

fn stamp(t: NaiveDateTime) -> Timestamp {
    Timestamp { seconds: t.and_utc().timestamp(), nanos: t.and_utc().timestamp_subsec_nanos() }
}

#[test]
fn test_struct_instantiation() {
    let log = SSHDLog::new(
        &patterns(),
        &create_log([
            TEST_TIME,
            TEST_HOST,
            &TEST_ID.to_string(),
            TEST_USERNAME,
            TEST_IPV4_STR,
            TEST_PORT,
        ]),
    );

    assert_ne!(log, Err(SSHDLogError::LogParseError));
    assert_ne!(log, Err(SSHDLogError::TimeParseError));
    assert_ne!(log, Err(SSHDLogError::Unknown));
    assert_ne!(log, Err(SSHDLogError::HostnameParseError));
    assert_ne!(log, Err(SSHDLogError::IdParseError));
    assert_ne!(log, Err(SSHDLogError::IpParseError));
    assert_ne!(log, Err(SSHDLogError::PortParseError));
}

#[test]
fn test_hostname_populates_correctly() {
    let log = SSHDLog::new(
        &patterns(),
        &create_log([
            TEST_TIME,
            TEST_HOST,
            &TEST_ID.to_string(),
            TEST_USERNAME,
            TEST_IPV4_STR,
            TEST_PORT,
        ]),
    )
    .unwrap();

    assert_eq!(log.get_host_name(), TEST_HOST);
}

#[test]
fn test_id_populates_correctly() {
    let log = SSHDLog::new(
        &patterns(),
        &create_log([
            TEST_TIME,
            TEST_HOST,
            &TEST_ID.to_string(),
            TEST_USERNAME,
            TEST_IPV4_STR,
            TEST_PORT,
        ]),
    )
    .unwrap();

    assert_eq!(*log.get_id(), TEST_ID);
}

#[test]
fn test_username_populates_correctly() {
    let log = SSHDLog::new(
        &patterns(),
        &create_log([
            TEST_TIME,
            TEST_HOST,
            &TEST_ID.to_string(),
            TEST_USERNAME,
            TEST_IPV4_STR,
            TEST_PORT,
        ]),
    )
    .unwrap();

    assert_eq!(log.get_username().map(String::from), Some(TEST_USERNAME.to_owned()));
}

#[test]
fn test_date_populates_correctly() {
    let log = SSHDLog::new(
        &patterns(),
        &create_log([
            TEST_TIME,
            TEST_HOST,
            &TEST_ID.to_string(),
            TEST_USERNAME,
            TEST_IPV4_STR,
            TEST_PORT,
        ]),
    )
    .unwrap();
    let test_date_string = String::from(Utc::now().year().to_string()) + " " + TEST_TIME;

    assert_eq!(
        *log.get_timestamp(),
        stamp(NaiveDateTime::parse_from_str(&test_date_string, "%Y %b %d %X").unwrap())
    );
}

#[test]
fn test_ip_addr_v4_populates_correctly() {
    let log = SSHDLog::new(
        &patterns(),
        &create_log([
            TEST_TIME,
            TEST_HOST,
            &TEST_ID.to_string(),
            TEST_USERNAME,
            TEST_IPV4_STR,
            TEST_PORT,
        ]),
    )
    .unwrap();

    let addr = IpAddress::V4(192, 168, 1, 1);
    assert_eq!(Some(addr), log.get_ip_addr());
}

#[test]
fn test_ip_addr_v6_populates_correctly() {
    let addr = logwarden::net::parse_ip(TEST_IPV6_STR).expect("Can't parse IP");
    assert_eq!(
        addr,
        IpAddress::V6(0x2601, 0x600, 0xc87f, 0x8a67, 0x42b0, 0x76ff, 0xfedd, 0x44e)
    );
    let log = SSHDLog::new(
        &patterns(),
        &create_log([
            TEST_TIME,
            TEST_HOST,
            &TEST_ID.to_string(),
            TEST_USERNAME,
            TEST_IPV6_STR,
            TEST_PORT,
        ]),
    )
    .expect("Log instantiation failed");

    assert_eq!(Some(addr), log.get_ip_addr());
}

#[test]
fn test_port_populates_correctly() {
    let log = SSHDLog::new(
        &patterns(),
        &create_log([
            TEST_TIME,
            TEST_HOST,
            &TEST_ID.to_string(),
            TEST_USERNAME,
            TEST_IPV6_STR,
            TEST_PORT,
        ]),
    )
    .expect("Log instantiation failed");

    let port_to_check = String::from(TEST_PORT).parse::<u16>().unwrap();
    assert_eq!(Some(port_to_check), log.get_port());
}

#[test]
fn test_structured_log_empty() {
    let structured_log = StructuredLog::empty();
    assert_eq!(structured_log.count_of_entries(), 0);
    assert_eq!(structured_log.remote_endpoints().len(), 0);
}

#[test]
fn test_structured_log_insertion() {
    let mut structured_log = StructuredLog::empty();
    assert_eq!(structured_log.count_of_entries(), 0);

    let log_to_insert = SSHDLog::new(&patterns(), &FIRST_LOG).unwrap();
    assert_ne!(structured_log.add_ip_log(&log_to_insert).is_err(), true);

    assert_eq!(structured_log.count_of_entries(), 1);
    assert_eq!(structured_log.remote_endpoints().len(), 1);
}

#[test]
fn test_structured_log_with_same_ip_address() {
    let mut structured_log = StructuredLog::empty();
    assert_eq!(structured_log.count_of_entries(), 0);
    let log_to_insert = SSHDLog::new(&patterns(), &FIRST_LOG).unwrap();
    assert_ne!(structured_log.add_ip_log(&log_to_insert).is_err(), true);
}

#[test]
fn line_in_a_given_year() {
    let log = SSHDLog::new_in_year(&patterns(), FIRST_LOG, "2023").unwrap();
    assert_eq!(
        *log.get_timestamp(),
        stamp(NaiveDateTime::parse_from_str("2023-04-11 14:11:05", "%Y-%m-%d %H:%M:%S").unwrap())
    );
    assert_eq!(log.get_timestamp().seconds, 1681222265);
    assert_eq!(log.get_timestamp().nanos, 0);
    assert_eq!(log.get_host_name(), "devinserver");
    assert_eq!(*log.get_id(), 2567619);
    assert_eq!(log.get_username(), Some("debian"));
    assert_eq!(log.get_ip_addr(), Some(IpAddress::V4(190, 1, 202, 12)));
    assert_eq!(log.get_port(), Some(52218));
    assert_eq!(log.get_log_type(), &SSHDLogType::ConnectionClosed);
}

#[test]
fn lines_that_are_no_log_lines() {
    let p = patterns();
    assert_eq!(SSHDLog::new_in_year(&p, "INVALID INPUT", "2023"), Err(SSHDLogError::LogParseError));
    assert_eq!(SSHDLog::new_in_year(&p, "", "2023"), Err(SSHDLogError::LogParseError));
    assert_eq!(
        SSHDLog::new_in_year(&p, "Apr 41 14:11:05 host sshd[1]: x", "2023"),
        Err(SSHDLogError::TimeParseError)
    );
    assert_eq!(
        SSHDLog::new_in_year(&p, "Feb 29 14:11:05 host sshd[1]: x", "2023"),
        Err(SSHDLogError::TimeParseError)
    );
    assert!(SSHDLog::new_in_year(&p, "Feb 29 14:11:05 host sshd[1]: x", "2024").is_ok());
    assert_eq!(
        SSHDLog::new_in_year(&p, "Apr 11 14:11:05 host sshd[99999999999999999999]: x", "2023"),
        Err(SSHDLogError::IdParseError)
    );
    assert_eq!(
        SSHDLog::new_in_year(&p, "Apr 11 14:11:05 host sshd[1]: from 1.2.3.400 port 22", "2023"),
        Err(SSHDLogError::IpParseError)
    );
    assert_eq!(
        SSHDLog::new_in_year(&p, "Apr 11 14:11:05 host sshd[1]: from 1.2.3.4 port 70000", "2023"),
        Err(SSHDLogError::PortParseError)
    );
}

#[test]
fn address_with_digits_to_spare_is_cut_at_three() {
    let input = "Apr 10 00:00:10 devinserver sshd[1748198]: Invalid user DudePerson from 143.198.68.23934 port 56720";
    let log = SSHDLog::new_in_year(&patterns(), input, "2023").unwrap();
    assert_eq!(log.get_ip_addr(), Some(IpAddress::V4(143, 198, 68, 239)));
}

#[test]
fn fields_one_by_one() {
    let p = patterns();
    let line = "Apr 11 14:11:05 devinserver sshd[2567619]: Accepted password for root";
    assert!(parse_date(&p, line, "1970").is_ok());
    assert_eq!(parse_date(&p, "no date here", "1970"), Err(SSHDLogError::TimeParseError));
    assert_eq!(parse_date(&p, line, "year"), Err(SSHDLogError::TimeParseError));
    assert_eq!(parse_host_name(&p, line), Ok(String::from("devinserver")));
    assert_eq!(parse_host_name(&p, "x"), Err(SSHDLogError::HostnameParseError));
    assert_eq!(parse_log_id(&p, line), Ok(2567619));
    assert_eq!(parse_log_id(&p, "sshd"), Err(SSHDLogError::IdParseError));
    assert_eq!(parse_username(&p, line), Ok(None));
    assert_eq!(parse_username(&p, "invalid user bob from"), Ok(Some(String::from("bob"))));
    assert_eq!(parse_ip_address(&p, line), Ok(None));
    assert_eq!(parse_ip_address(&p, "from ::1 port"), Ok(Some(IpAddress::V6(0, 0, 0, 0, 0, 0, 0, 1))));
    assert_eq!(parse_port(&p, line), Ok(None));
    assert_eq!(parse_port(&p, "PORT 22"), Ok(Some(22)));
    assert_eq!(parse_port(&p, "port 65536"), Err(SSHDLogError::PortParseError));
}

#[test]
fn signed_numbers() {
    let samples = [
        "0", "-0", "+0", "1", "-1", "+1", "9223372036854775807", "9223372036854775808",
        "-9223372036854775808", "-9223372036854775809", "", "-", "+", "--1", "+-1", "1-", " 1",
        "00012", "-00012", "12a", "18446744073709551616", "-18446744073709551616",
    ];
    for s in samples {
        assert_eq!(parse_i64(s), s.parse::<i64>().ok(), "{:?}", s);
    }
}

fn line_from(addr: &str) -> SSHDLog {
    let line = format!("Apr 11 14:11:05 host sshd[1]: Invalid user x from {} port 22", addr);
    SSHDLog::new_in_year(&patterns(), &line, "2023").unwrap()
}

#[test]
fn tally_counts_and_orders() {
    let mut tally = StructuredLog::empty();
    tally.add_ip_log(&line_from("10.0.0.1")).unwrap();
    tally.add_ip_log(&line_from("10.0.0.2")).unwrap();
    tally.add_ip_log(&line_from("10.0.0.2")).unwrap();
    tally.add_ip_log(&line_from("10.0.0.3")).unwrap();
    tally.add_ip_log(&line_from("10.0.0.3")).unwrap();
    tally.add_ip_log(&line_from("10.0.0.3")).unwrap();
    assert_eq!(tally.count_of_addresses(), 3);
    assert_eq!(tally.count_of_entries(), 3);
    assert_eq!(
        tally.remote_endpoints(),
        &vec![
            RemoteEndpoint { address: IpAddress::V4(10, 0, 0, 3), log_count: 3 },
            RemoteEndpoint { address: IpAddress::V4(10, 0, 0, 2), log_count: 2 },
            RemoteEndpoint { address: IpAddress::V4(10, 0, 0, 1), log_count: 1 },
        ]
    );
}

#[test]
fn line_without_address_counts_for_nothing() {
    let mut tally = StructuredLog::empty();
    let line = SSHDLog::new_in_year(&patterns(), "Apr 11 14:11:05 host sshd[1]: hello", "2023")
        .unwrap();
    assert_eq!(tally.add_ip_log(&line), Err(SSHDLogError::IpParseError));
    assert_eq!(tally.count_of_addresses(), 0);
    assert_eq!(tally.count_of_entries(), 0);
}

#[test]
fn saved_tally_comes_back() {
    let saved = vec![
        RemoteEndpoint { address: IpAddress::V4(10, 0, 0, 1), log_count: 5 },
        RemoteEndpoint { address: IpAddress::V4(10, 0, 0, 2), log_count: 7 },
        RemoteEndpoint { address: IpAddress::V4(10, 0, 0, 1), log_count: 9 },
    ];
    let at = Timestamp { seconds: 1681222265, nanos: 0 };
    let mut tally = StructuredLog::init(at, saved.clone());
    assert_eq!(tally.updated_time(), at);
    assert_eq!(tally.remote_endpoints(), &saved);
    assert_eq!(tally.count_of_addresses(), 3);
    assert_eq!(tally.count_of_entries(), 2);
    tally.sort_endpoints();
    assert_eq!(
        tally.remote_endpoints(),
        &vec![
            RemoteEndpoint { address: IpAddress::V4(10, 0, 0, 1), log_count: 9 },
            RemoteEndpoint { address: IpAddress::V4(10, 0, 0, 2), log_count: 7 },
        ]
    );
    tally.add_ip_log(&line_from("10.0.0.2")).unwrap();
    tally.add_ip_log(&line_from("10.0.0.2")).unwrap();
    tally.add_ip_log(&line_from("10.0.0.2")).unwrap();
    assert_eq!(tally.remote_endpoints()[0], RemoteEndpoint { address: IpAddress::V4(10, 0, 0, 2), log_count: 10 });
    assert!(tally.updated_time().seconds > at.seconds);
}

#[test]
fn valid_line_is_counted() {
    let input = "Apr 10 00:00:10 devinserver sshd[1748198]: Invalid user DudePerson from 143.198.68.239 port 56720";
    let mut tally = StructuredLog::empty();
    assert_eq!(tally_lines(&mut tally, &patterns(), input, "2023"), Ok(1));
    assert_eq!(
        tally.remote_endpoints(),
        &vec![RemoteEndpoint { address: IpAddress::V4(143, 198, 68, 239), log_count: 1 }]
    );
}

#[test]
fn invalid_input_is_not_counted() {
    let mut tally = StructuredLog::empty();
    assert_eq!(tally_lines(&mut tally, &patterns(), "INVALID INPUT", "2023"), Ok(0));
    assert_eq!(tally.count_of_addresses(), 0);
    assert_eq!(tally_lines(&mut tally, &patterns(), "", "2023"), Ok(0));
    assert_eq!(tally_line(&mut tally, &patterns(), "INVALID INPUT", "2023"), Ok(false));
}

#[test]
fn line_with_an_address_that_is_none_is_left_out() {
    let mut tally = StructuredLog::empty();
    let line = "Apr 10 00:00:10 devinserver sshd[1748198]: Invalid user x from 143.198.68.999 port 56720";
    assert_eq!(tally_lines(&mut tally, &patterns(), line, "2023"), Ok(0));
    assert_eq!(tally.count_of_entries(), 0);
}

#[test]
fn buffer_of_several_lines() {
    let buffer = "Apr 10 00:00:10 host sshd[1]: Invalid user a from 10.0.0.1 port 1\n\
not a log line\n\
Apr 10 00:00:11 host sshd[1]: Invalid user b from 10.0.0.2 port 2\n\
Apr 10 00:00:12 host sshd[1]: session opened\n\
Apr 10 00:00:13 host sshd[1]: Invalid user c from 10.0.0.2 port 3\n";
    let mut tally = StructuredLog::empty();
    assert!(tally.has_room_for(6));
    assert_eq!(tally_lines(&mut tally, &patterns(), buffer, "2023"), Ok(3));
    assert_eq!(
        tally.remote_endpoints(),
        &vec![
            RemoteEndpoint { address: IpAddress::V4(10, 0, 0, 2), log_count: 2 },
            RemoteEndpoint { address: IpAddress::V4(10, 0, 0, 1), log_count: 1 },
        ]
    );
}

#[test]
fn line_that_fails_otherwise_stops_the_count() {
    let buffer = "Apr 10 00:00:10 host sshd[1]: Invalid user a from 10.0.0.1 port 1\n\
Apr 10 00:00:11 host sshd[1]: Invalid user b from 10.0.0.2 port 70000\n\
Apr 10 00:00:13 host sshd[1]: Invalid user c from 10.0.0.3 port 3\n";
    let mut tally = StructuredLog::empty();
    assert_eq!(
        tally_lines(&mut tally, &patterns(), buffer, "2023"),
        Err(SSHDLogError::PortParseError)
    );
    assert_eq!(
        tally.remote_endpoints(),
        &vec![RemoteEndpoint { address: IpAddress::V4(10, 0, 0, 1), log_count: 1 }]
    );
    assert_eq!(
        tally_line(&mut tally, &patterns(), "Feb 30 00:00:11 host sshd[1]: x", "2023"),
        Err(SSHDLogError::TimeParseError)
    );
}

#[test]
fn tally_that_is_full_has_no_room() {
    let full = vec![RemoteEndpoint { address: IpAddress::V4(10, 0, 0, 1), log_count: usize::MAX }];
    let tally = StructuredLog::init(Timestamp { seconds: 0, nanos: 0 }, full);
    assert!(tally.has_room_for(0));
    assert!(!tally.has_room_for(1));
}
