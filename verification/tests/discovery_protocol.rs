//! The discovery wire protocol and the deduplicated server list.

use fos_server::discovery::{
    discovery_reply, magic_bytes, parse_discovery_response, DiscoveredServers, DiscoveryService,
    GAME_PORT,
};

#[test]
fn probe_is_answered_with_the_game_port() {
    let probe = magic_bytes();
    assert_eq!(probe.as_slice(), b"FORGE_DISCOVER_V1");
    let reply = discovery_reply(probe.as_slice()).expect("the probe must be answered");
    assert_eq!(reply.as_slice(), b"FORGE_RESP_V1;25571");
    assert_eq!(GAME_PORT, 25571);
}

#[test]
fn other_datagrams_are_ignored() {
    assert!(discovery_reply(b"junk").is_none());
    assert!(discovery_reply(b"").is_none());
    assert!(discovery_reply(b"FORGE_DISCOVER_V2").is_none());
}

#[test]
fn reply_yields_url_from_source_address() {
    let url = parse_discovery_response(b"FORGE_RESP_V1;25571", "192.168.0.42")
        .expect("a well-formed reply must yield a URL");
    assert_eq!(url, "https://192.168.0.42:25571");
}

#[test]
fn reply_with_other_port_is_used_as_sent() {
    let url = parse_discovery_response(b"FORGE_RESP_V1;80", "10.0.0.9")
        .expect("the reply names the port");
    assert_eq!(url, "https://10.0.0.9:80");
}

#[test]
fn malformed_replies_are_ignored() {
    assert!(parse_discovery_response(b"FORGE_RESP_V1;", "10.0.0.9").is_none());
    assert!(parse_discovery_response(b"FORGE_RESP_V1;12a4", "10.0.0.9").is_none());
    assert!(parse_discovery_response(b"FORGE_RESP_V1;70000", "10.0.0.9").is_none());
    assert!(parse_discovery_response(b"OTHER_RESP_V1;8080", "10.0.0.9").is_none());
    assert!(parse_discovery_response(b"FORGE_RESP_V1;123456", "10.0.0.9").is_none());
}

#[test]
fn merge_deduplicates_by_address() {
    let mut list = DiscoveredServers::new();
    let round = vec![
        String::from("https://10.0.0.1:25571"),
        String::from("https://10.0.0.2:25571"),
        String::from("https://10.0.0.1:25571"),
    ];
    list.merge(&round);
    assert_eq!(list.len(), 2);
    list.merge(&round);
    assert_eq!(list.len(), 2);
    assert_eq!(list.0[0], "https://10.0.0.1:25571");
    assert_eq!(list.0[1], "https://10.0.0.2:25571");
}

#[test]
fn discovery_round_gating() {
    let mut svc = DiscoveryService::new(2000);
    assert!(!svc.tick(1000));
    assert!(svc.tick(1000));
    assert!(svc.in_flight);
    assert!(!svc.tick(5000));
    assert!(!svc.tick(5000));

    let results = vec![String::from("https://10.0.0.1:25571")];
    svc.round_complete(&results);
    assert!(!svc.in_flight);
    assert_eq!(svc.servers.len(), 1);

    assert!(svc.tick(2000));
    svc.round_complete(&results);
    assert_eq!(svc.servers.len(), 1);
}

#[test]
fn leaving_the_browsing_context_clears_the_list() {
    let mut svc = DiscoveryService::new(2000);
    let results = vec![String::from("https://10.0.0.1:25571")];
    svc.round_complete(&results);
    assert_eq!(svc.servers.len(), 1);
    svc.servers.clear();
    assert_eq!(svc.servers.len(), 0);
}
