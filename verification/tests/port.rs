use shell_supervisor::decimal::{format_decimal, parse_decimal_u16, str_eq};
use shell_supervisor::port::{
    format_port, is_port_in_use, plan_probe, ConnectOutcome, ProbePlan, DEFAULT_HOST, RELEASE_PORT,
};

#[test]
fn refused_connection_means_free() {
    assert!(!is_port_in_use(ConnectOutcome::Refused));
}

#[test]
fn accepted_connection_means_in_use() {
    assert!(is_port_in_use(ConnectOutcome::Connected));
}

#[test]
fn any_other_failure_counts_as_in_use() {
    assert!(is_port_in_use(ConnectOutcome::Failed));
}

#[test]
fn release_port_is_probed() {
    assert_eq!(RELEASE_PORT, "7938");
    assert_eq!(DEFAULT_HOST, "127.0.0.1");
    assert_eq!(plan_probe(RELEASE_PORT), ProbePlan::Connect { port: 7938 });
}

#[test]
fn text_that_is_no_port_is_assumed_in_use() {
    for text in ["", "+", "-1", "-", "abc", "80a", " 80", "80 ", "8 0", "65536", "99999999999999999999", "1.5", "0x50", "\u{663}"] {
        assert_eq!(plan_probe(text), ProbePlan::AssumeInUse, "{:?}", text);
    }
}

#[test]
fn port_numbers_parse_like_the_standard_library() {
    let texts = [
        "0", "1", "80", "+80", "007", "65535", "+65535", "65536", "0000000000000000065535", "++1",
        "+-1", "1+", "", "+", "-0", "6553\u{ff15}",
    ];
    for text in texts {
        assert_eq!(parse_decimal_u16(text), text.parse::<u16>().ok(), "{:?}", text);
    }
}

#[test]
fn every_port_reads_back() {
    for port in 0..=u16::MAX {
        let text = format_port(port);
        assert_eq!(text, port.to_string());
        assert_eq!(plan_probe(&text), ProbePlan::Connect { port });
    }
}

#[test]
fn decimal_of_large_numbers() {
    assert_eq!(format_decimal(0), "0");
    assert_eq!(format_decimal(9), "9");
    assert_eq!(format_decimal(10), "10");
    assert_eq!(format_decimal(4294967295), "4294967295");
    assert_eq!(format_decimal(u64::MAX), "18446744073709551615");
}

#[test]
fn texts_compare_by_their_characters() {
    assert!(str_eq("", ""));
    assert!(str_eq("1.2.3", "1.2.3"));
    assert!(!str_eq("1.2.3", "1.2.30"));
    assert!(!str_eq("a", "A"));
}

#[test]
fn unreadable_port_is_in_use_without_a_probe() {
    let plan = plan_probe("not a port");
    assert_eq!(plan.port_to_probe(), None);
    assert!(plan.in_use(None));
    // whatever an attempt might have said, there is no port to start on
    assert!(plan.in_use(Some(ConnectOutcome::Refused)));
}

#[test]
fn readable_port_is_judged_by_its_probe() {
    let plan = plan_probe("7938");
    assert_eq!(plan.port_to_probe(), Some(7938));
    assert!(!plan.in_use(Some(ConnectOutcome::Refused)));
    assert!(plan.in_use(Some(ConnectOutcome::Connected)));
    assert!(plan.in_use(Some(ConnectOutcome::Failed)));
}

#[test]
fn port_that_was_not_probed_is_not_shown_free() {
    assert!(plan_probe("7938").in_use(None));
}
