use mdns::discoverer::{Action, Discoverer, PORT};
use mdns::dns::error::ErrorKind;
use mdns::dns::ipaddr::IpAddr;
use mdns::dns::message::Message;
use mdns::query::Query;

fn response() -> Vec<u8> {
    let mut b = vec![0, 0, 0x84, 0, 0, 0, 0, 2, 0, 0, 0, 0];
    b.extend_from_slice(&[3, b'w', b'e', b'b', 5, b'_', b'h', b't', b't', b'p', 4, b'_', b't', b'c', b'p', 0]);
    b.extend_from_slice(&[0, 33, 0, 1, 0, 0, 0, 120, 0, 15, 0, 0, 0, 0, 0, 80]);
    b.extend_from_slice(&[1, b'h', 5, b'l', b'o', b'c', b'a', b'l', 0]);
    b.extend_from_slice(&[1, b'h', 5, b'l', b'o', b'c', b'a', b'l', 0]);
    b.extend_from_slice(&[0, 1, 0, 1, 0, 0, 0, 120, 0, 4, 10, 1, 2, 3]);
    b
}

#[test]
fn discoverer_lifecycle() {
    let mut d = Discoverer::new();
    let q = Query::with("_services._dns-sd._udp", "local");
    assert_eq!(d.search(&q).err().unwrap().kind, ErrorKind::Transport);
    match d.start() {
        Action::Join { groups, port } => {
            assert_eq!(port, PORT);
            assert_eq!(port, 5353);
            assert_eq!(
                groups,
                vec![IpAddr::V6(0xff02, 0, 0, 0, 0, 0, 0, 0xfb), IpAddr::V4(224, 0, 0, 251)]
            );
        },
        _ => panic!("expected a join"),
    }
    d.started(true);
    assert!(matches!(d.start(), Action::Idle));
    match d.search(&q) {
        Ok(Action::Send(bytes)) => {
            let m = Message::from_bytes(&bytes).unwrap();
            assert_eq!(m.questions()[0].name(), "_services._dns-sd._udp.local");
        },
        _ => panic!("expected a datagram"),
    }
    assert!(matches!(d.stop(), Action::Leave));
    assert!(matches!(d.stop(), Action::Idle));
}

#[test]
fn discoverer_failed_join_stays_idle() {
    let mut d = Discoverer::new();
    d.started(false);
    assert!(matches!(d.start(), Action::Join { .. }));
}

#[test]
fn discoverer_search_rejects_unwritable_query() {
    let mut d = Discoverer::new();
    d.started(true);
    let q = Query::with("", "local");
    assert_eq!(d.search(&q).err().unwrap().kind, ErrorKind::Encode);
}

#[test]
fn discoverer_gathers_services_and_drops_garbage() {
    let mut d = Discoverer::new();
    d.packet_received(&[1, 2, 3]);
    assert!(d.services().is_empty());
    d.packet_received(&response());
    d.packet_received(&response());
    let services = d.services();
    assert_eq!(services.len(), 2);
    assert_eq!(services[0].name(), "web");
    assert_eq!(services[0].domain(), "_tcp");
    assert_eq!(services[0].host(), "h.local");
    assert_eq!(services[0].port(), 80);
    assert_eq!(services[0].ipaddrs(), &vec![IpAddr::V4(10, 1, 2, 3)]);
    assert!(services[0].attributes().is_empty());
}

#[test]
fn query_accessors() {
    let mut q = Query::new();
    assert_eq!(q.to_string(), ".");
    q.set_service("_ipp._tcp");
    q.set_domain("local");
    assert_eq!(q.service(), "_ipp._tcp");
    assert_eq!(q.domain(), "local");
    assert_eq!(q.to_string(), "_ipp._tcp.local");
}
