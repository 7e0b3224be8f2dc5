use loganalyzer::ip::parse_ip_literal;
use loganalyzer::ip::parse_ipv4;
use loganalyzer::ip::parse_ipv6;

fn v4(s: &str) -> bool {
    parse_ipv4(&s.as_bytes().to_vec())
}

fn v6(s: &str) -> bool {
    parse_ipv6(&s.as_bytes().to_vec())
}

fn ip(s: &str) -> bool {
    parse_ip_literal(&s.as_bytes().to_vec())
}

#[test]
fn ipv4_literals_accepted() {
    assert!(v4("127.0.0.1"));
    assert!(v4("0.0.0.0"));
    assert!(v4("255.255.255.255"));
    assert!(v4("10.2.33.4"));
}

#[test]
fn ipv4_literals_rejected() {
    assert!(!v4(""));
    assert!(!v4("1.2.3"));
    assert!(!v4("1.2.3.4.5"));
    assert!(!v4("256.1.1.1"));
    assert!(!v4("01.2.3.4"));
    assert!(!v4("1.2.3.4 "));
    assert!(!v4("1..3.4"));
    assert!(!v4("1.2.3.f"));
    assert!(!v4("not.an.ip"));
    assert!(!v4("1234.1.2.3"));
}

#[test]
fn ipv6_literals_accepted() {
    assert!(v6("::"));
    assert!(v6("::1"));
    assert!(v6("1::"));
    assert!(v6("1:2:3:4:5:6:7:8"));
    assert!(v6("1:2:3:4:5:6:7::"));
    assert!(v6("1::2:3:4:5:6:7"));
    assert!(v6("fe80::abcd:EF01"));
    assert!(v6("::ffff:127.0.0.1"));
    assert!(v6("1:2:3:4:5:6:1.2.3.4"));
    assert!(v6("0000:0000:0000:0000:0000:0000:0000:0001"));
}

#[test]
fn ipv6_literals_rejected() {
    assert!(!v6(""));
    assert!(!v6(":"));
    assert!(!v6(":::"));
    assert!(!v6("1:2:3:4:5:6:7:8:9"));
    assert!(!v6("1:2:3:4:5:6:7:8::"));
    assert!(!v6("1::2:3:4:5:6:7:8"));
    assert!(!v6("1::2::3"));
    assert!(!v6("12345::"));
    assert!(!v6("g::"));
    assert!(!v6("1.2.3.4::"));
    assert!(!v6("::1.2.3.4.5"));
    assert!(!v6("1:2:3:4:5:6:7"));
}

#[test]
fn ip_literal_is_either_form() {
    assert!(ip("127.0.0.1"));
    assert!(ip("::1"));
    assert!(!ip("localhost"));
    assert!(!ip("not.an.ip"));
}
