//! The connection-target validator: accepted shapes, rejected shapes, and
//! the derived canonical address.

use fos_server::target::{parse_target_live, ClientTarget};

#[test]
fn plain_ipv4_target_parses() {
    let r = parse_target_live("127.0.0.1:8080");
    let (ip, port) = r.expect("a plain host:port must parse");
    assert_eq!(ip, "127.0.0.1");
    assert_eq!(port, 8080);
}

#[test]
fn https_scheme_is_stripped() {
    let r = parse_target_live("https://192.168.0.7:25571");
    let (ip, port) = r.expect("an https scheme must be stripped");
    assert_eq!(ip, "192.168.0.7");
    assert_eq!(port, 25571);
}

#[test]
fn http_scheme_is_stripped() {
    let r = parse_target_live("http://10.0.0.1:80");
    let (ip, port) = r.expect("an http scheme must be stripped");
    assert_eq!(ip, "10.0.0.1");
    assert_eq!(port, 80);
}

#[test]
fn surrounding_whitespace_is_trimmed() {
    let r = parse_target_live("  1.2.3.4:500\t");
    let (ip, port) = r.expect("whitespace around the input must not matter");
    assert_eq!(ip, "1.2.3.4");
    assert_eq!(port, 500);
}

#[test]
fn bracketed_ipv6_target_parses() {
    let r = parse_target_live("[::1]:8080");
    let (ip, port) = r.expect("a bracketed IPv6 loopback must parse");
    assert_eq!(ip, "::1");
    assert_eq!(port, 8080);
}

#[test]
fn full_ipv6_target_parses() {
    let r = parse_target_live("[2001:db8:0:0:0:0:2:1]:443");
    let (ip, port) = r.expect("a full eight-group address must parse");
    assert_eq!(ip, "2001:db8:0:0:0:0:2:1");
    assert_eq!(port, 443);
}

#[test]
fn compressed_ipv6_target_parses() {
    let r = parse_target_live("https://[2001:db8::2:1]:25571");
    let (ip, port) = r.expect("a compressed address with a scheme must parse");
    assert_eq!(ip, "2001:db8::2:1");
    assert_eq!(port, 25571);
}

#[test]
fn ipv4_mapped_ipv6_target_parses() {
    let r = parse_target_live("[::ffff:192.168.0.7]:80");
    let (ip, port) = r.expect("an IPv4-mapped address must parse");
    assert_eq!(ip, "::ffff:192.168.0.7");
    assert_eq!(port, 80);
}

#[test]
fn malformed_ipv6_targets_are_rejected() {
    assert!(parse_target_live("[:::]:80").is_none());
    assert!(parse_target_live("[1:2:3]:80").is_none());
    assert!(parse_target_live("[1:2:3:4:5:6:7:8:9]:80").is_none());
    assert!(parse_target_live("[1:2:3:4:5:6:7:8::]:80").is_none());
    assert!(parse_target_live("[12345::]:80").is_none());
    assert!(parse_target_live("[1:2::3::4]:80").is_none());
    assert!(parse_target_live("[g::1]:80").is_none());
    assert!(parse_target_live("[::1]").is_none());
    assert!(parse_target_live("[::1]:0").is_none());
    assert!(parse_target_live("[::1]8080").is_none());
    assert!(parse_target_live("::1:8080").is_none());
}

#[test]
fn update_input_handles_ipv6_targets() {
    let mut t = ClientTarget::new();
    t.update_input(String::from("[::1]:8080"));
    assert!(t.is_valid);
    assert_eq!(t.ip, "::1");
    assert_eq!(t.port, 8080);
    assert_eq!(t.real_address, "https://[::1]:8080");
}

#[test]
fn not_an_address_is_rejected() {
    assert!(parse_target_live("not-an-address").is_none());
}

#[test]
fn port_zero_is_rejected() {
    assert!(parse_target_live("1.2.3.4:0").is_none());
}

#[test]
fn missing_port_is_rejected() {
    assert!(parse_target_live("1.2.3.4").is_none());
}

#[test]
fn octet_out_of_range_is_rejected() {
    assert!(parse_target_live("256.1.1.1:80").is_none());
}

#[test]
fn leading_zero_octet_is_rejected() {
    assert!(parse_target_live("01.2.3.4:5").is_none());
}

#[test]
fn three_octets_are_rejected() {
    assert!(parse_target_live("1.2.3:80").is_none());
}

#[test]
fn empty_input_is_rejected() {
    assert!(parse_target_live("").is_none());
}

#[test]
fn port_out_of_range_is_rejected() {
    assert!(parse_target_live("1.2.3.4:70000").is_none());
}

#[test]
fn update_input_fills_derived_fields() {
    let mut t = ClientTarget::new();
    t.update_input(String::from("192.168.0.7:25571"));
    assert!(t.is_valid);
    assert_eq!(t.ip, "192.168.0.7");
    assert_eq!(t.port, 25571);
    assert_eq!(t.real_address, "https://192.168.0.7:25571");
}

#[test]
fn update_input_keeps_existing_scheme() {
    let mut t = ClientTarget::new();
    t.update_input(String::from("https://192.168.0.7:25571"));
    assert!(t.is_valid);
    assert_eq!(t.real_address, "https://192.168.0.7:25571");
}

#[test]
fn update_input_rewrites_http_scheme() {
    let mut t = ClientTarget::new();
    t.update_input(String::from("http://192.168.0.7:25571"));
    assert!(t.is_valid);
    assert_eq!(t.real_address, "https://192.168.0.7:25571");
}

#[test]
fn update_input_clears_fields_on_invalid_text() {
    let mut t = ClientTarget::new();
    t.update_input(String::from("192.168.0.7:25571"));
    assert!(t.is_valid);
    t.update_input(String::from("not-an-address"));
    assert!(!t.is_valid);
    assert_eq!(t.ip, "");
    assert_eq!(t.port, 0);
    assert_eq!(t.real_address, "");
}
