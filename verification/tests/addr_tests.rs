use daemon_supervisor::addr::{daemon_connect_addr, daemon_listen_addr, parse_port_from_remote_host};

#[test]
fn parses_listen_port_from_host() {
    assert_eq!(parse_port_from_remote_host("100.100.100.1:4732"), Some(4732));
    assert_eq!(parse_port_from_remote_host("[fd7a:115c:a1e0::1]:4545"), Some(4545));
    assert_eq!(parse_port_from_remote_host("example.ts.net"), None);
}

#[test]
fn builds_listen_addr_with_fallback_port() {
    assert_eq!(daemon_listen_addr("mac.example.ts.net:8888"), "0.0.0.0:8888");
    assert_eq!(daemon_listen_addr("mac.example.ts.net"), "0.0.0.0:4732");
}

#[test]
fn port_parsing_edge_cases() {
    assert_eq!(parse_port_from_remote_host(""), None);
    assert_eq!(parse_port_from_remote_host("   "), None);
    assert_eq!(parse_port_from_remote_host("  host:80  "), Some(80));
    assert_eq!(parse_port_from_remote_host("host:+80"), Some(80));
    assert_eq!(parse_port_from_remote_host("host:0"), Some(0));
    assert_eq!(parse_port_from_remote_host("host:65535"), Some(65535));
    assert_eq!(parse_port_from_remote_host("host:65536"), None);
    assert_eq!(parse_port_from_remote_host("host:00080"), Some(80));
    assert_eq!(parse_port_from_remote_host("host:"), None);
    assert_eq!(parse_port_from_remote_host("host:8a"), None);
    assert_eq!(parse_port_from_remote_host("a:b:17"), Some(17));
}

#[test]
fn listen_addr_round_trips_through_port_parsing() {
    for host in ["h:9000", "h", "[::1]:7", "  spaced.host:123  "] {
        let addr = daemon_listen_addr(host);
        let expected = parse_port_from_remote_host(host).unwrap_or(4732);
        assert_eq!(parse_port_from_remote_host(&addr), Some(expected));
    }
}

#[test]
fn connect_addr_uses_loopback_and_same_port() {
    assert_eq!(daemon_connect_addr("0.0.0.0:4732").as_deref(), Some("127.0.0.1:4732"));
    assert_eq!(daemon_connect_addr("bare-host"), None);
}
