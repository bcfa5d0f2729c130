use collab::config::{host_from, Host, IpAddress, Resolution, ServerAddress, ServerAddressParseError, DEFAULT_DOMAIN, DEFAULT_PORT};
use collab::numbers::IntErrorKind;

#[test]
fn parses_localhost_address() {
    let addr = ServerAddress::from_str("localhost:3000").unwrap();
    assert!(matches!(addr.host(), Host::Localhost));
    assert_eq!(addr.port(), 3000);
    assert_eq!(addr.to_string(), "localhost:3000");
}

#[test]
fn parses_ipv4_address() {
    let addr = ServerAddress::from_str("10.0.0.1:8080").unwrap();
    assert!(matches!(addr.host(), Host::Ip(IpAddress::V4(10, 0, 0, 1))));
    assert_eq!(addr.port(), 8080);
    assert_eq!(addr.to_string(), "10.0.0.1:8080");
}

#[test]
fn parses_ipv6_address_split_at_last_colon() {
    let addr = ServerAddress::from_str("::1:80").unwrap();
    assert!(matches!(addr.host(), Host::Ip(IpAddress::V6(0, 0, 0, 0, 0, 0, 0, 1))));
    assert_eq!(addr.port(), 80);
    assert_eq!(addr.host_to_string(), "::1");
    assert!(addr.uses_plain_tcp());
}

#[test]
fn parses_domain_address() {
    let addr = ServerAddress::from_str("collab.nomad.foo:443").unwrap();
    match addr.host() {
        Host::Domain(d) => assert_eq!(d, "collab.nomad.foo"),
        other => panic!("unexpected host {other:?}"),
    }
    assert!(!addr.uses_plain_tcp());
    match addr.resolution() {
        Resolution::Lookup(name, port) => {
            assert_eq!(name, "collab.nomad.foo");
            assert_eq!(port, 443);
        },
        other => panic!("unexpected resolution {other:?}"),
    }
}

#[test]
fn missing_colon_is_invalid_format() {
    assert_eq!(ServerAddress::from_str("localhost").unwrap_err(), ServerAddressParseError::InvalidFormat);
}

#[test]
fn empty_port_is_invalid() {
    assert_eq!(
        ServerAddress::from_str("localhost:").unwrap_err(),
        ServerAddressParseError::InvalidPort(IntErrorKind::Empty)
    );
}

#[test]
fn port_with_letters_is_invalid() {
    assert_eq!(
        ServerAddress::from_str("localhost:12a").unwrap_err(),
        ServerAddressParseError::InvalidPort(IntErrorKind::InvalidDigit)
    );
}

#[test]
fn port_too_large_overflows() {
    assert_eq!(
        ServerAddress::from_str("localhost:70000").unwrap_err(),
        ServerAddressParseError::InvalidPort(IntErrorKind::PosOverflow)
    );
}

#[test]
fn port_agrees_with_std_parsing() {
    for port in ["0", "65535", "+7", "007", "65536", "-1", "", "+"] {
        let ours = ServerAddress::from_str(&format!("localhost:{port}")).map(|a| a.port());
        let std = port.parse::<u16>();
        match (ours, std) {
            (Ok(a), Ok(b)) => assert_eq!(a, b),
            (Err(ServerAddressParseError::InvalidPort(_)), Err(_)) => {},
            (a, b) => panic!("mismatch for {port:?}: {a:?} vs {b:?}"),
        }
    }
}

#[test]
fn host_with_space_is_invalid() {
    assert_eq!(ServerAddress::from_str("bad host:1").unwrap_err(), ServerAddressParseError::InvalidHost);
}

#[test]
fn bracketed_ipv6_is_invalid_host() {
    assert_eq!(ServerAddress::from_str("[::1]:80").unwrap_err(), ServerAddressParseError::InvalidHost);
}

#[test]
fn default_address() {
    let addr = ServerAddress::default();
    assert_eq!(addr.to_string(), format!("{DEFAULT_DOMAIN}:{DEFAULT_PORT}"));
    assert_eq!(addr.to_string(), "collab.nomad.foo:3000");
}

#[test]
fn localhost_resolves_to_loopback() {
    let addr = ServerAddress::from_str("localhost:9").unwrap();
    match addr.resolution() {
        Resolution::Direct(ip, port) => {
            assert_eq!(ip, IpAddress::V4(127, 0, 0, 1));
            assert_eq!(port, 9);
        },
        other => panic!("unexpected resolution {other:?}"),
    }
    assert!(!addr.uses_plain_tcp());
}

#[test]
fn loopback_ipv4_uses_plain_tcp() {
    assert!(ServerAddress::from_str("127.0.0.2:1").unwrap().uses_plain_tcp());
    assert!(!ServerAddress::from_str("128.0.0.1:1").unwrap().uses_plain_tcp());
}

#[test]
fn written_address_reads_back() {
    for s in ["localhost:1", "192.168.1.20:65535", "example.org:22", "fe80::1:5"] {
        let addr = ServerAddress::from_str(s).unwrap();
        let again = ServerAddress::from_str(&addr.to_string()).unwrap();
        assert_eq!(again.to_string(), addr.to_string());
        assert_eq!(again.port(), addr.port());
    }
}

#[test]
fn host_from_checks_in_order() {
    use_host_from();
}

fn use_host_from() {
    assert!(matches!(host_from("localhost".to_string(), Some(IpAddress::V4(1, 2, 3, 4)), true), Some(Host::Localhost)));
    assert!(matches!(host_from("x".to_string(), Some(IpAddress::V4(1, 2, 3, 4)), true), Some(Host::Ip(IpAddress::V4(1, 2, 3, 4)))));
    assert!(matches!(host_from("x.org".to_string(), None, true), Some(Host::Domain(d)) if d == "x.org"));
    assert!(host_from("x y".to_string(), None, false).is_none());
}
