use logwarden::net::{parse_hex_group, parse_ip, parse_ipv4, parse_octet, IpAddress};
use logwarden::text::{equals_ignoring_ascii_case, parse_u16, same_text, split_on, to_chars};

#[test]
fn dotted_quads() {
    assert_eq!(parse_ip("10.0.0.1"), Some(IpAddress::V4(10, 0, 0, 1)));
    assert_eq!(parse_ip("255.255.255.255"), Some(IpAddress::V4(255, 255, 255, 255)));
    assert_eq!(parse_ip("0.0.0.0"), Some(IpAddress::V4(0, 0, 0, 0)));
    assert_eq!(parse_ipv4("1.2.3.4"), Some((1, 2, 3, 4)));
    assert_eq!(parse_ip("256.0.0.1"), None);
    assert_eq!(parse_ip("1.2.3"), None);
    assert_eq!(parse_ip("1.2.3.4.5"), None);
    assert_eq!(parse_ip("01.2.3.4"), None);
    assert_eq!(parse_ip("1.2.3.4 "), None);
    assert_eq!(parse_ip("1..3.4"), None);
    assert_eq!(parse_ip("+1.2.3.4"), None);
    assert_eq!(parse_ip(""), None);
    assert_eq!(parse_octet("0"), Some(0));
    assert_eq!(parse_octet("255"), Some(255));
    assert_eq!(parse_octet("256"), None);
    assert_eq!(parse_octet("00"), None);
    assert_eq!(parse_octet("1000"), None);
}

#[test]
fn ipv6_texts() {
    assert_eq!(parse_ip("::"), Some(IpAddress::V6(0, 0, 0, 0, 0, 0, 0, 0)));
    assert_eq!(parse_ip("::1"), Some(IpAddress::V6(0, 0, 0, 0, 0, 0, 0, 1)));
    assert_eq!(parse_ip("1::"), Some(IpAddress::V6(1, 0, 0, 0, 0, 0, 0, 0)));
    assert_eq!(
        parse_ip("2601:600:c87f:8a67:42b0:76ff:fedd:44e"),
        Some(IpAddress::V6(0x2601, 0x600, 0xc87f, 0x8a67, 0x42b0, 0x76ff, 0xfedd, 0x44e))
    );
    assert_eq!(
        parse_ip("::ffff:192.168.1.1"),
        Some(IpAddress::V6(0, 0, 0, 0, 0, 0xffff, 0xc0a8, 0x0101))
    );
    assert_eq!(
        parse_ip("1:2:3:4:5:6:7.8.9.10"),
        Some(IpAddress::V6(1, 2, 3, 4, 5, 6, 0x0708, 0x090a))
    );
    assert_eq!(parse_ip("FE80::AbCd"), Some(IpAddress::V6(0xfe80, 0, 0, 0, 0, 0, 0, 0xabcd)));
    assert_eq!(parse_ip("1:2:3:4:5:6:7::"), Some(IpAddress::V6(1, 2, 3, 4, 5, 6, 7, 0)));
    assert_eq!(parse_ip("1:2:3:4:5:6:7:8:9"), None);
    assert_eq!(parse_ip("1:2:3:4:5:6:7"), None);
    assert_eq!(parse_ip(":::"), None);
    assert_eq!(parse_ip("1::2::3"), None);
    assert_eq!(parse_ip("12345::"), None);
    assert_eq!(parse_ip("::g"), None);
    assert_eq!(parse_ip("1:2:3:4:5:6:7::8"), None);
    assert_eq!(parse_ip("1.2.3.4::"), None);
    assert_eq!(parse_ip("fe80::1%eth0"), None);
    assert_eq!(parse_hex_group("ffff"), Some(0xffff));
    assert_eq!(parse_hex_group("0"), Some(0));
    assert_eq!(parse_hex_group(""), None);
    assert_eq!(parse_hex_group("10000"), None);
}

#[test]
fn texts_that_are_no_address() {
    let samples = [
        "256.1.1.1", "1.2.3", "1.2.3.4.5", "01.1.1.1", "1.1.1.01", "1.1.1.1.", ".1.1.1.1",
        "a.b.c.d", "", " ", "1.2.3.4 ", ":::", "::1::", "1:2:3:4:5:6:7:8:9", "1:2:3:4:5:6:7",
        "1:2:3:4::5:6:7:8", "1:2:3:4:5:6:7:1.2.3.4", "1:2:3:4:5:6::1.2.3.4", "::1.2.3.4:5",
        "1.2.3.4::", "::1.2.3", "::1.2.3.256", "::01.2.3.4", "fe80::1%eth0", "00000::",
        "::00000", "g::", "1:", ":1", "1:2", ":", "1:2::3:4:5:6:7:8", "anywhere", "Anywhere",
        "10.0.0.1/24", "+1::", "1:2:3:4:5:6:7:", ":1:2:3:4:5:6:7", "::1:",
    ];
    for s in samples {
        assert_eq!(parse_ip(s), None, "{:?}", s);
    }
}

#[test]
fn groups_left_out_are_zero() {
    assert_eq!(parse_ip("1::2"), Some(IpAddress::V6(1, 0, 0, 0, 0, 0, 0, 2)));
    assert_eq!(parse_ip("1:2:3:4:5:6:7:8"), Some(IpAddress::V6(1, 2, 3, 4, 5, 6, 7, 8)));
    assert_eq!(parse_ip("::2:3:4:5:6:7:8"), Some(IpAddress::V6(0, 2, 3, 4, 5, 6, 7, 8)));
    assert_eq!(parse_ip("1::3:4:5:6:7:8"), Some(IpAddress::V6(1, 0, 3, 4, 5, 6, 7, 8)));
    assert_eq!(parse_ip("1::2:3:4:5:6:7"), Some(IpAddress::V6(1, 0, 2, 3, 4, 5, 6, 7)));
    assert_eq!(parse_ip("::1.2.3.4"), Some(IpAddress::V6(0, 0, 0, 0, 0, 0, 0x0102, 0x0304)));
    assert_eq!(parse_ip("1::1.2.3.4"), Some(IpAddress::V6(1, 0, 0, 0, 0, 0, 0x0102, 0x0304)));
    assert_eq!(
        parse_ip("1:2:3:4:5::1.2.3.4"),
        Some(IpAddress::V6(1, 2, 3, 4, 5, 0, 0x0102, 0x0304))
    );
    assert_eq!(parse_ip("::0.0.0.0"), Some(IpAddress::V6(0, 0, 0, 0, 0, 0, 0, 0)));
    assert_eq!(parse_ip("0::0"), Some(IpAddress::V6(0, 0, 0, 0, 0, 0, 0, 0)));
    assert_eq!(parse_ip("::ffff:0:0"), Some(IpAddress::V6(0, 0, 0, 0, 0, 0xffff, 0, 0)));
    assert_eq!(
        parse_ip("0000:0000:0000:0000:0000:0000:0000:0000"),
        Some(IpAddress::V6(0, 0, 0, 0, 0, 0, 0, 0))
    );
    assert_eq!(parse_ip("FFFF::ffff"), Some(IpAddress::V6(0xffff, 0, 0, 0, 0, 0, 0, 0xffff)));
    assert_eq!(
        parse_ip("2001:db8::8a2e:370:7334"),
        Some(IpAddress::V6(0x2001, 0xdb8, 0, 0, 0, 0x8a2e, 0x370, 0x7334))
    );
    assert_eq!(
        parse_ip("2001:DB8:0:0:8:800:200C:417A"),
        Some(IpAddress::V6(0x2001, 0xdb8, 0, 0, 8, 0x800, 0x200c, 0x417a))
    );
}

#[test]
fn numbers_read_as_the_standard_library_reads_them() {
    let samples = [
        "0", "1", "22", "65535", "65536", "99999", "000080", "+80", "+", "-1", "", " 80", "80 ",
        "8 0", "0x50", "1e3", "٣", "+0", "++1", "4294967296", "18446744073709551616",
        "00000000000000000000000000001",
    ];
    for s in samples {
        assert_eq!(parse_u16(s), s.parse::<u16>().ok(), "{:?}", s);
    }
}

#[test]
fn texts_split_as_the_standard_library_splits_them() {
    let samples = ["", "\n", "a", "a\n", "\na", "a\nb", "a\n\nb\n", "\n\n", "é\nü", "a.b"];
    for s in samples {
        let expected: Vec<&str> = s.split('\n').collect();
        assert_eq!(split_on(s, '\n'), expected, "{:?}", s);
    }
    assert_eq!(split_on("1.2.3.4", '.'), vec!["1", "2", "3", "4"]);
}

#[test]
fn letter_case_is_ignored_for_ascii_only() {
    assert!(equals_ignoring_ascii_case("ANYWHERE", "anywhere"));
    assert!(equals_ignoring_ascii_case("AnyWhere", "anywhere"));
    assert!(!equals_ignoring_ascii_case("anywher", "anywhere"));
    assert!(!equals_ignoring_ascii_case("anywhere ", "anywhere"));
    assert!(equals_ignoring_ascii_case("V6", "v6"));
    assert!(!equals_ignoring_ascii_case("É", "é"));
    assert!(equals_ignoring_ascii_case("", ""));
    assert!(same_text("abc", "abc"));
    assert!(!same_text("abc", "abd"));
    assert!(!same_text("abc", "ab"));
    assert_eq!(to_chars("héé"), vec!['h', 'é', 'é']);
}
