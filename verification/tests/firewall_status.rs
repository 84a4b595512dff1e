use logwarden::net::IpAddress;
use logwarden::ufw::ufw_status::{
    NetworkProtocol, UFWAction, UFWIpRuleSpecification, UFWPortRule, UFWPortRuleSpecification,
    UFWRule, UFWRuleDirection, UFWStatus, UFWStatusError,
};
use logwarden::ufw::{CommandOutput, UFWError, UFW};
use logwarden::ufw::utils::{
    address_from_captures, parse_port_rule, parse_ufw_action, parse_ufw_ip, RulePatterns,
    UFWParseError,
};

fn patterns() -> RulePatterns {
    RulePatterns::new().expect("the rule patterns compile")
}

#[test]
fn port_range_with_protocol() {
    let p = patterns();
    assert_eq!(
        parse_port_rule(&p, "2456:2457/udp ALLOW Anywhere"),
        Ok(UFWPortRule {
            protocol: NetworkProtocol::Udp,
            port_from: UFWPortRuleSpecification::Specific(2456),
            port_to: Some(UFWPortRuleSpecification::Specific(2457)),
            is_v6: false,
        })
    );
}

#[test]
fn allow_follows_the_direction_token() {
    let p = patterns();
    assert_eq!(
        parse_ufw_action(&p, "2456:2457/udp ALLOW IN Anywhere"),
        Ok(UFWAction::Allow(UFWRuleDirection::In))
    );
    assert_eq!(
        parse_ufw_action(&p, "2456:2457/udp ALLOW OUT Anywhere"),
        Ok(UFWAction::Allow(UFWRuleDirection::Out))
    );
    assert_eq!(
        parse_ufw_action(&p, "2456:2457/udp ALLOW Anywhere"),
        Err(UFWParseError::ActionParseError(true))
    );
}

#[test]
fn v6_deny_out_anywhere() {
    let p = patterns();
    let line = "8675 (v6) DENY OUT Anywhere (v6)";
    assert_eq!(
        parse_port_rule(&p, line),
        Ok(UFWPortRule {
            protocol: NetworkProtocol::Both,
            port_from: UFWPortRuleSpecification::Specific(8675),
            port_to: None,
            is_v6: true,
        })
    );
    assert_eq!(parse_ufw_action(&p, line), Ok(UFWAction::Deny(UFWRuleDirection::Out)));
    assert_eq!(parse_ufw_ip(&p, line), Ok(UFWIpRuleSpecification::Anywhere(true)));
}

#[test]
fn deny_in_from_one_address() {
    let p = patterns();
    assert_eq!(
        parse_ufw_ip(&p, "Anywhere DENY IN 10.0.0.1"),
        Ok(UFWIpRuleSpecification::Specific(IpAddress::V4(10, 0, 0, 1)))
    );
    assert_eq!(
        parse_port_rule(&p, "Anywhere DENY IN 10.0.0.1"),
        Ok(UFWPortRule {
            protocol: NetworkProtocol::Both,
            port_from: UFWPortRuleSpecification::Anywhere,
            port_to: None,
            is_v6: false,
        })
    );
}

#[test]
fn lines_that_are_no_rules() {
    let p = patterns();
    assert_eq!(parse_port_rule(&p, "Status: active"), Err(UFWParseError::PortParseError(false)));
    assert_eq!(parse_port_rule(&p, ""), Err(UFWParseError::PortParseError(false)));
    assert_eq!(parse_ufw_action(&p, "Status: active"), Err(UFWParseError::ActionParseError(true)));
    assert_eq!(parse_ufw_ip(&p, "Status: active"), Err(UFWParseError::IpParseError(true)));
}

#[test]
fn port_that_fits_no_u16_is_an_error() {
    let p = patterns();
    assert_eq!(parse_port_rule(&p, "70000/tcp ALLOW IN Anywhere "), Err(UFWParseError::PortParseError(true)));
    assert_eq!(parse_port_rule(&p, "80:70000/tcp ALLOW IN Anywhere "), Err(UFWParseError::PortParseError(true)));
    assert_eq!(
        parse_port_rule(&p, "65535/TCP ALLOW IN Anywhere "),
        Ok(UFWPortRule {
            protocol: NetworkProtocol::Tcp,
            port_from: UFWPortRuleSpecification::Specific(65535),
            port_to: None,
            is_v6: false,
        })
    );
}

#[test]
fn address_token_that_is_no_address_is_an_error() {
    let p = patterns();
    assert_eq!(parse_ufw_ip(&p, "22 DENY IN nowhere"), Err(UFWParseError::IpParseError(true)));
    assert_eq!(parse_ufw_ip(&p, "22 DENY IN 10.0.0.256"), Err(UFWParseError::IpParseError(true)));
    assert_eq!(parse_ufw_ip(&p, "22 DENY IN Anywhere "), Ok(UFWIpRuleSpecification::Anywhere(false)));
    assert_eq!(
        parse_ufw_ip(&p, "22 DENY IN fe80::1"),
        Ok(UFWIpRuleSpecification::Specific(IpAddress::V6(0xfe80, 0, 0, 0, 0, 0, 0, 1)))
    );
}

const REPORT: &str = "Status: active\n\
Logging: on (low)\n\
Default: deny (incoming), allow (outgoing), disabled (routed)\n\
New profiles: skip\n\
\n\
To                         Action      From\n\
--                         ------      ----\n\
22/tcp                     ALLOW IN    Anywhere                  \n\
2456:2457/udp              ALLOW IN    Anywhere                  \n\
Anywhere                   DENY IN     10.0.0.1                  \n\
22/tcp (v6)                ALLOW IN    Anywhere (v6)             \n\
8675 (v6)                  DENY OUT    Anywhere (v6)             \n\
\n";

fn rule_22_tcp() -> UFWRule {
    UFWRule {
        port: UFWPortRule {
            protocol: NetworkProtocol::Tcp,
            port_from: UFWPortRuleSpecification::Specific(22),
            port_to: None,
            is_v6: false,
        },
        action: UFWAction::Allow(UFWRuleDirection::In),
        ip_address: UFWIpRuleSpecification::Anywhere(false),
    }
}

#[test]
fn report_lists_its_rules() {
    let p = patterns();
    let status = UFWStatus::new(REPORT.as_bytes().to_vec(), &p).unwrap();
    assert_eq!(status.len(), 5);
    assert!(status.contains(&rule_22_tcp()));
    assert!(status.contains(&UFWRule {
        port: UFWPortRule {
            protocol: NetworkProtocol::Both,
            port_from: UFWPortRuleSpecification::Anywhere,
            port_to: None,
            is_v6: false,
        },
        action: UFWAction::Deny(UFWRuleDirection::In),
        ip_address: UFWIpRuleSpecification::Specific(IpAddress::V4(10, 0, 0, 1)),
    }));
    assert!(status.contains(&UFWRule {
        port: UFWPortRule {
            protocol: NetworkProtocol::Both,
            port_from: UFWPortRuleSpecification::Specific(8675),
            port_to: None,
            is_v6: true,
        },
        action: UFWAction::Deny(UFWRuleDirection::Out),
        ip_address: UFWIpRuleSpecification::Anywhere(true),
    }));
    assert_eq!(status.rules()[0], rule_22_tcp());
}

#[test]
fn same_report_twice_gives_the_same_rules() {
    let p = patterns();
    let first = UFWStatus::new(REPORT.as_bytes().to_vec(), &p).unwrap();
    let second = UFWStatus::new(REPORT.as_bytes().to_vec(), &p).unwrap();
    assert_eq!(first.rules(), second.rules());
    let doubled = format!("{}\n{}", REPORT, REPORT);
    let both = UFWStatus::new(doubled.into_bytes(), &p).unwrap();
    assert_eq!(both.len(), first.len());
    assert_eq!(both.rules(), first.rules());
}

#[test]
fn empty_report_has_no_rules() {
    let p = patterns();
    let status = UFWStatus::new(Vec::new(), &p).unwrap();
    assert_eq!(status.len(), 0);
    assert!(!status.contains(&rule_22_tcp()));
}

#[test]
fn report_that_is_no_utf8_fails() {
    let p = patterns();
    assert_eq!(
        UFWStatus::new(vec![0x32, 0x32, 0xff, 0xfe], &p).err(),
        Some(UFWStatusError::ErrorParsingStatus)
    );
}

#[test]
fn one_bad_line_fails_the_whole_report() {
    let p = patterns();
    let bad_port = "22/tcp ALLOW IN Anywhere \n99999 ALLOW IN Anywhere \n";
    assert_eq!(
        UFWStatus::new(bad_port.as_bytes().to_vec(), &p).err(),
        Some(UFWStatusError::ErrorParsingStatus)
    );
    let no_action = "22/tcp ALLOW IN Anywhere \n2456:2457/udp ALLOW Anywhere\n";
    assert_eq!(
        UFWStatus::new(no_action.as_bytes().to_vec(), &p).err(),
        Some(UFWStatusError::ErrorParsingAction)
    );
    let bad_address = "22/tcp ALLOW IN 300.1.1.1\n";
    assert_eq!(
        UFWStatus::new(bad_address.as_bytes().to_vec(), &p).err(),
        Some(UFWStatusError::ErrorParsingIp)
    );
}

#[test]
fn test_ufw_location() {
    let which = CommandOutput {
        success: true,
        stdout: b"/usr/sbin/ufw\n".to_vec(),
        stderr: Vec::new(),
    };
    let ufw = UFW::new(which).unwrap();
    assert_ne!(ufw.ufw_location(), String::from(""));
}

#[test]
fn test_ufw_status() {
    let which = CommandOutput {
        success: true,
        stdout: b"/usr/sbin/ufw\n".to_vec(),
        stderr: Vec::new(),
    };
    let mut ufw = UFW::new(which).unwrap();
    let report = CommandOutput {
        success: true,
        stdout: REPORT.as_bytes().to_vec(),
        stderr: Vec::new(),
    };
    ufw.status(report, &patterns()).expect("Unable to obtain ufw status");
}

#[test]
fn firewall_that_is_not_there() {
    let failed = CommandOutput { success: false, stdout: Vec::new(), stderr: Vec::new() };
    assert!(matches!(UFW::new(failed), Err(UFWError::UFWNotInstalled)));
    let nowhere = CommandOutput { success: true, stdout: Vec::new(), stderr: Vec::new() };
    assert!(matches!(UFW::new(nowhere), Err(UFWError::UFWNotInstalled)));
    let complained =
        CommandOutput { success: true, stdout: b"/usr/sbin/ufw\n".to_vec(), stderr: b"x".to_vec() };
    assert!(matches!(UFW::new(complained), Err(UFWError::UFWNotInstalled)));
    let garbled = CommandOutput { success: true, stdout: vec![0xff], stderr: Vec::new() };
    assert!(matches!(UFW::new(garbled), Err(UFWError::UFWNotInstalled)));
}

#[test]
fn status_command_that_failed_is_not_parsed() {
    let which =
        CommandOutput { success: true, stdout: b"/usr/sbin/ufw\n".to_vec(), stderr: Vec::new() };
    let mut ufw = UFW::new(which).unwrap();
    assert!(ufw.ufw_status().is_none());
    let denied = CommandOutput {
        success: false,
        stdout: REPORT.as_bytes().to_vec(),
        stderr: b"ERROR: You need to be root to run this script\n".to_vec(),
    };
    assert!(matches!(ufw.status(denied, &patterns()), Err(UFWError::UFWCommandFailed)));
    assert!(ufw.ufw_status().is_none());
    let bad = CommandOutput {
        success: true,
        stdout: b"22/tcp ALLOW IN 300.1.1.1\n".to_vec(),
        stderr: Vec::new(),
    };
    assert!(matches!(
        ufw.status(bad, &patterns()),
        Err(UFWError::UFWStatusError(UFWStatusError::ErrorParsingIp))
    ));
    let good =
        CommandOutput { success: true, stdout: REPORT.as_bytes().to_vec(), stderr: Vec::new() };
    assert_eq!(ufw.status(good, &patterns()).unwrap().len(), 5);
    assert_eq!(ufw.ufw_status().unwrap().len(), 5);
}

#[test]
fn anywhere_at_the_end_of_the_line() {
    let p = patterns();
    assert_eq!(
        parse_ufw_ip(&p, "22/tcp ALLOW IN Anywhere"),
        Ok(UFWIpRuleSpecification::Anywhere(false))
    );
    assert_eq!(
        parse_ufw_ip(&p, "22/tcp ALLOW IN anywhere"),
        Ok(UFWIpRuleSpecification::Anywhere(false))
    );
    assert_eq!(
        parse_ufw_ip(&p, "2456:2457/udp ALLOW OUT ANYWHERE"),
        Ok(UFWIpRuleSpecification::Anywhere(false))
    );
    assert_eq!(
        parse_ufw_ip(&p, "22/tcp ALLOW IN Anywhere (v6)"),
        Ok(UFWIpRuleSpecification::Anywhere(true))
    );
    assert_eq!(parse_ufw_ip(&p, "22/tcp ALLOW IN Anywher"), Err(UFWParseError::IpParseError(true)));
}

#[test]
fn token_that_is_the_word_anywhere() {
    let groups =
        vec![Some(String::from("ALLOW IN Anywhere")), None, None, Some(String::from("Anywhere"))];
    assert_eq!(address_from_captures(&groups), Ok(UFWIpRuleSpecification::Anywhere(false)));
    let groups =
        vec![Some(String::from("ALLOW IN 10.0.0.1")), None, None, Some(String::from("10.0.0.1"))];
    assert_eq!(
        address_from_captures(&groups),
        Ok(UFWIpRuleSpecification::Specific(IpAddress::V4(10, 0, 0, 1)))
    );
    let groups =
        vec![Some(String::from("ALLOW IN nowhere")), None, None, Some(String::from("nowhere"))];
    assert_eq!(address_from_captures(&groups), Err(UFWParseError::IpParseError(true)));
    let groups = vec![
        Some(String::from("DENY OUT Anywhere (v6)")),
        Some(String::from("Anywhere")),
        Some(String::from("v6")),
        None,
    ];
    assert_eq!(address_from_captures(&groups), Ok(UFWIpRuleSpecification::Anywhere(true)));
}

#[test]
fn report_whose_lines_end_after_the_last_word() {
    let p = patterns();
    let report = "Status: active\n\nTo Action From\n-- ------ ----\n\
22/tcp ALLOW IN Anywhere\n\
2456:2457/udp ALLOW IN Anywhere\n\
Anywhere DENY IN 10.0.0.1\n\
8675 (v6) DENY OUT Anywhere (v6)";
    let status = UFWStatus::new(report.as_bytes().to_vec(), &p).unwrap();
    assert_eq!(status.len(), 4);
    assert!(status.contains(&rule_22_tcp()));
    assert!(status.contains(&UFWRule {
        port: UFWPortRule {
            protocol: NetworkProtocol::Udp,
            port_from: UFWPortRuleSpecification::Specific(2456),
            port_to: Some(UFWPortRuleSpecification::Specific(2457)),
            is_v6: false,
        },
        action: UFWAction::Allow(UFWRuleDirection::In),
        ip_address: UFWIpRuleSpecification::Anywhere(false),
    }));
}
