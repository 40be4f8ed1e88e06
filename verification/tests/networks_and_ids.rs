use actixutils::extractors::ClientIp;
use actixutils::middleware::client_ip::ClientIpMiddleware;
use actixutils::middleware::request_id::{RequestId, RequestIdStr};
use actixutils::middleware::rate_limiter::GetId;
use actixutils::middleware::session::{SessionAction, SessionEvent, SessionMiddleware, SessionPhase};
use actixutils::net::{forwarded_candidates, forwarded_client_ip, IpAddress, IpNetwork, ProxyConfig};
fn octets(s: &str) -> u32 {
    let parts: Vec<u8> = s.split('.').map(|p| p.parse().unwrap()).collect();
    u32::from_be_bytes([parts[0], parts[1], parts[2], parts[3]])
}

fn v4(s: &str) -> IpAddress {
    IpAddress::V4(octets(s))
}

fn net(s: &str, p: u8) -> IpNetwork {
    IpNetwork::new(v4(s), p).unwrap()
}

#[test]
fn network_containment_matches_ipnet() {
    let n = net("10.1.2.3", 8);
    assert!(n.contains(v4("10.0.0.1")));
    assert!(n.contains(v4("10.255.255.255")));
    assert!(!n.contains(v4("11.0.0.0")));
    assert!(!n.contains(IpAddress::V6(1)));
    assert!(net("0.0.0.0", 0).contains(v4("203.0.113.9")));
    assert!(net("192.168.1.7", 32).contains(v4("192.168.1.7")));
    assert!(!net("192.168.1.7", 32).contains(v4("192.168.1.8")));
    assert!(IpNetwork::new(v4("1.2.3.4"), 33).is_none());
    let six = IpNetwork::new(IpAddress::V6(0xfd00 << 112), 8).unwrap();
    assert!(six.contains(IpAddress::V6((0xfd12 << 112) | 5)));
    assert!(!six.contains(IpAddress::V6(0xfe00 << 112)));
    for (addr, prefix, ip) in [("172.16.0.0", 12u8, "172.31.255.1"), ("172.16.0.0", 12, "172.32.0.0")] {
        let ours = net(addr, prefix).contains(v4(ip));
        let theirs: ipnet::Ipv4Net = format!("{addr}/{prefix}").parse().unwrap();
        let x = octets(ip);
        let inside = u32::from(theirs.network()) <= x && x <= u32::from(theirs.broadcast());
        assert_eq!(ours, inside);
    }
}

#[test]
fn proxy_resolution() {
    let config = ProxyConfig::new(vec![net("10.0.0.0", 8), net("172.16.0.0", 12)]);
    assert!(config.is_trusted(v4("10.9.9.9")));
    assert!(!config.is_trusted(v4("8.8.8.8")));
    let chain = vec![v4("203.0.113.7"), v4("198.51.100.2"), v4("10.0.0.5")];
    assert_eq!(forwarded_client_ip(&config, &chain), Some(v4("198.51.100.2")));
    let all_trusted = vec![v4("10.0.0.1"), v4("172.16.0.1")];
    assert_eq!(forwarded_client_ip(&config, &all_trusted), Some(v4("10.0.0.1")));
    assert_eq!(forwarded_client_ip(&config, &vec![]), None);

    let mw = ClientIpMiddleware::new(config);
    let svc = mw.new_transform(());
    // untrusted peer: header ignored
    let r = svc.client_ip(Some(v4("8.8.8.8")), Some(&chain)).unwrap();
    assert_eq!(r.ip(), v4("8.8.8.8"));
    // trusted peer: walk the header
    let r = svc.client_ip(Some(v4("10.0.0.9")), Some(&chain)).unwrap();
    assert_eq!(r.ip(), v4("198.51.100.2"));
    assert_eq!(r.id(), v4("198.51.100.2"));
    // trusted peer without header or with an empty one
    assert_eq!(svc.client_ip(Some(v4("10.0.0.9")), None).unwrap().ip(), v4("10.0.0.9"));
    assert_eq!(svc.client_ip(Some(v4("10.0.0.9")), Some(&vec![])).unwrap().ip(), v4("10.0.0.9"));
    assert!(svc.client_ip(None, Some(&chain)).is_none());
    assert!(ClientIp::from_extensions(None).is_err());
    assert!(ClientIp::from_extensions(Some(ClientIp(v4("1.1.1.1")))).is_ok());
}

#[test]
fn forwarded_header_pieces() {
    assert_eq!(
        forwarded_candidates(" 203.0.113.7 ,198.51.100.2,, 10.0.0.5"),
        vec!["203.0.113.7", "198.51.100.2", "", "10.0.0.5"]
    );
    assert_eq!(forwarded_candidates(""), vec![""]);
}

#[test]
fn uuid_text_and_parse() {
    // request ids are the hyphenated text of a random version-4 UUID
    let RequestIdStr(text) = RequestIdStr::generate();
    assert_eq!(text.len(), 36);
    assert_eq!(text.as_bytes()[14], b'4');
    assert!(matches!(text.as_bytes()[19], b'8' | b'9' | b'a' | b'b'));
    let parsed = uuid::Uuid::parse_str(&text).unwrap();
    assert_eq!(parsed.get_version_num(), 4);
    assert_eq!(parsed.to_string(), text);
    assert_ne!(RequestIdStr::generate().0, text);
    assert_eq!(RequestId::header_name(), "X-Request-Id");

    // a session cookie is read as the UUID it spells, and a fresh session's
    // cookie spells its id
    let svc = SessionMiddleware::new(std::sync::Arc::new(())).new_transform(());
    let cookie = "67e55044-10b1-426f-9247-bb680e5fe0c8";
    let (_, a) = svc.step(SessionPhase::Start, SessionEvent::Request { cookie: Some(cookie.to_string()) });
    assert!(matches!(a, SessionAction::Load { id } if id == 0x67e5504410b1426f9247bb680e5fe0c8));
    let upper = "67E55044-10B1-426F-9247-BB680E5FE0C8";
    let (_, a) = svc.step(SessionPhase::Start, SessionEvent::Request { cookie: Some(upper.to_string()) });
    assert!(matches!(a, SessionAction::Load { id } if id == 0x67e5504410b1426f9247bb680e5fe0c8));
    let (_, a) = svc.step(SessionPhase::Start, SessionEvent::Request { cookie: Some("not a uuid".to_string()) });
    let fresh = match a {
        SessionAction::ServeFresh { id } => id,
        _ => panic!("expected a fresh session"),
    };
    assert_eq!(uuid::Uuid::from_u128(fresh).get_version_num(), 4);
    let (_, a) = svc.step(
        SessionPhase::Serving { id: 0x67e5504410b1426f9247bb680e5fe0c8, fresh: true },
        SessionEvent::Responded { dirty: false },
    );
    assert!(matches!(a, SessionAction::Respond { set_cookie: Some(ref c) } if c == cookie));
    assert!(matches!(svc.start(Some(5)), (SessionPhase::Loading { id: 5 }, SessionAction::Load { id: 5 })));
    assert!(matches!(svc.start(None), (SessionPhase::Serving { fresh: true, .. }, SessionAction::ServeFresh { .. })));
}
