use mdns::dns::class::Class;
use mdns::dns::error::ErrorKind;
use mdns::dns::ipaddr::IpAddr;
use mdns::dns::message::{Message, Opcode, ResponseCode, QR};
use mdns::dns::ptr_record::PTRRecord;
use mdns::dns::record::Record;
use mdns::dns::resource_record::ResourceRecord;
use mdns::dns::typ::Type;
use mdns::message::QueryMessage;
use mdns::query::Query;
use mdns::service::Service;

fn push_name(buf: &mut Vec<u8>, name: &str) {
    for label in name.split('.') {
        buf.push(label.len() as u8);
        buf.extend_from_slice(label.as_bytes());
    }
    buf.push(0);
}

fn push_pointer(buf: &mut Vec<u8>, offset: usize) {
    buf.push(0xc0 | (offset >> 8) as u8);
    buf.push((offset & 0xff) as u8);
}

fn push_fixed(buf: &mut Vec<u8>, typ: u16, class: u16, ttl: u32) {
    buf.extend_from_slice(&typ.to_be_bytes());
    buf.extend_from_slice(&class.to_be_bytes());
    buf.extend_from_slice(&ttl.to_be_bytes());
}

fn push_rdata(buf: &mut Vec<u8>, data: &[u8]) {
    buf.extend_from_slice(&(data.len() as u16).to_be_bytes());
    buf.extend_from_slice(data);
}

fn header(buf: &mut Vec<u8>, flags: u16, qd: u16, an: u16, ns: u16, ar: u16) {
    buf.extend_from_slice(&[0, 0]);
    buf.extend_from_slice(&flags.to_be_bytes());
    buf.extend_from_slice(&qd.to_be_bytes());
    buf.extend_from_slice(&an.to_be_bytes());
    buf.extend_from_slice(&ns.to_be_bytes());
    buf.extend_from_slice(&ar.to_be_bytes());
}

/// A DNS-SD response of a Matter node, as it appears on the link: seven
/// answers and five additionals, with compressed names in owners and RDATA.
fn matter_response() -> Vec<u8> {
    let mut b = Vec::new();
    header(&mut b, 0x8400, 0, 7, 0, 5);
    // 1: PTR _matter._tcp.local -> ABCD-1234._matter._tcp.local
    let service_at = b.len();
    push_name(&mut b, "_matter._tcp.local");
    push_fixed(&mut b, 12, 0x0001, 4500);
    let instance_at = b.len() + 2;
    let mut data = vec![9];
    data.extend_from_slice(b"ABCD-1234");
    push_pointer(&mut data, service_at);
    push_rdata(&mut b, &data);
    // 2: PTR _IABCD._sub._matter._tcp.local -> instance
    b.push(6);
    b.extend_from_slice(b"_IABCD");
    b.push(4);
    b.extend_from_slice(b"_sub");
    push_pointer(&mut b, service_at);
    push_fixed(&mut b, 12, 0x0001, 4500);
    let mut data = Vec::new();
    push_pointer(&mut data, instance_at);
    push_rdata(&mut b, &data);
    // 3: PTR _services._dns-sd._udp.local -> _matter._tcp.local
    push_name(&mut b, "_services._dns-sd._udp.local");
    push_fixed(&mut b, 12, 0x0001, 4500);
    let mut data = Vec::new();
    push_pointer(&mut data, service_at);
    push_rdata(&mut b, &data);
    // 4: SRV instance -> host1.local:5540
    push_pointer(&mut b, instance_at);
    push_fixed(&mut b, 33, 0x8001, 120);
    let host_at = b.len() + 2 + 6;
    let mut data = vec![0, 0, 0, 0, 0x15, 0xa4];
    push_name(&mut data, "host1.local");
    push_rdata(&mut b, &data);
    // 5: TXT instance
    push_pointer(&mut b, instance_at);
    push_fixed(&mut b, 16, 0x8001, 4500);
    let mut data = Vec::new();
    for s in ["SII=5000", "SAI=300", "T=0"] {
        data.push(s.len() as u8);
        data.extend_from_slice(s.as_bytes());
    }
    push_rdata(&mut b, &data);
    // 6: AAAA host fe80::1
    push_pointer(&mut b, host_at);
    push_fixed(&mut b, 28, 0x8001, 120);
    push_rdata(&mut b, &[0xfe, 0x80, 0, 0, 0, 0, 0, 0, 0, 0, 0, 0, 0, 0, 0, 1]);
    // 7: A host 192.168.1.10
    push_pointer(&mut b, host_at);
    push_fixed(&mut b, 1, 0x8001, 120);
    push_rdata(&mut b, &[192, 168, 1, 10]);
    // additionals: AAAA, A, NSEC, NSEC, A
    push_pointer(&mut b, host_at);
    push_fixed(&mut b, 28, 0x8001, 120);
    push_rdata(&mut b, &[0xfd, 0, 0, 0, 0, 0, 0, 0, 0, 0, 0, 0, 0, 0, 0, 2]);
    push_pointer(&mut b, host_at);
    push_fixed(&mut b, 1, 0x8001, 120);
    push_rdata(&mut b, &[10, 0, 0, 7]);
    push_pointer(&mut b, instance_at);
    push_fixed(&mut b, 47, 0x8001, 4500);
    let mut data = Vec::new();
    push_pointer(&mut data, instance_at);
    data.extend_from_slice(&[0, 5, 0, 0, 0x80, 0, 0x40]);
    push_rdata(&mut b, &data);
    push_pointer(&mut b, host_at);
    push_fixed(&mut b, 47, 0x8001, 120);
    let mut data = Vec::new();
    push_pointer(&mut data, host_at);
    data.extend_from_slice(&[0, 4, 0x40, 0, 0, 0x08]);
    push_rdata(&mut b, &data);
    push_pointer(&mut b, host_at);
    push_fixed(&mut b, 1, 0x8001, 120);
    push_rdata(&mut b, &[10, 0, 0, 8]);
    b
}

#[test]
fn message_parse() {
    struct Expected {
        qd_count: u16,
        an_count: u16,
        ns_count: u16,
        ar_count: u16,
    }
    struct Test {
        msg_bytes: Vec<u8>,
        expected: Expected,
    }

    let tests = vec![Test {
        msg_bytes: matter_response(),
        expected: Expected { qd_count: 0, an_count: 7, ns_count: 0, ar_count: 5 },
    }];

    for test in tests {
        let mut msg = Message::new();
        assert!(msg.parse_bytes(&test.msg_bytes).is_ok());
        assert_eq!(msg.qd_count(), test.expected.qd_count);
        assert_eq!(msg.an_count(), test.expected.an_count);
        assert_eq!(msg.ns_count(), test.expected.ns_count);
        assert_eq!(msg.ar_count(), test.expected.ar_count);
    }
}

#[test]
fn matter_capture_yields_a_service() {
    let bytes = matter_response();
    let msg = Message::from_bytes(&bytes).unwrap();
    assert_eq!(msg.answers().len(), 7);
    assert_eq!(msg.additionals().len(), 5);
    assert_eq!(msg.answers()[3].name(), "ABCD-1234._matter._tcp.local");
    assert_eq!(msg.answers()[1].name(), "_IABCD._sub._matter._tcp.local");
    assert!(msg.answers()[3].unicast_response());
    assert_eq!(msg.answers()[3].class(), Class::IN);
    let service = Service::from_message(&msg);
    assert_eq!(service.host(), "host1.local");
    assert_eq!(service.port(), 5540);
    assert_eq!(service.name(), "ABCD-1234");
    assert_eq!(service.domain(), "_tcp");
    assert_eq!(
        service.ipaddrs(),
        &vec![
            IpAddr::V6(0xfe80, 0, 0, 0, 0, 0, 0, 1),
            IpAddr::V4(192, 168, 1, 10),
            IpAddr::V6(0xfd00, 0, 0, 0, 0, 0, 0, 2),
            IpAddr::V4(10, 0, 0, 7),
            IpAddr::V4(10, 0, 0, 8),
        ]
    );
    assert_eq!(service.attribute("SII").unwrap(), "5000");
    assert_eq!(service.attribute("T").unwrap(), "0");
    assert!(service.attribute("X").is_none());
    assert_eq!(service.resource_records().len(), 12);
    assert_eq!(service.message().an_count(), 7);
}

#[test]
fn ptr_pointer_resolves_against_the_message() {
    let bytes = matter_response();
    let msg = Message::from_bytes(&bytes).unwrap();
    let ptr = PTRRecord::from_record(&msg.answers()[0]).unwrap();
    assert_eq!(ptr.name(), "_matter._tcp.local");
    assert_eq!(ptr.domain_name(), "ABCD-1234._matter._tcp.local");
    let ptr = PTRRecord::from_record(&msg.answers()[2]).unwrap();
    assert_eq!(ptr.domain_name(), "_matter._tcp.local");
    assert_eq!(ptr.typ(), Type::PTR);
}

#[test]
fn header_parse() {
    let mut b = Vec::new();
    header(&mut b, 0x8400, 0, 5, 0, 0);
    assert_eq!(&b[..], &[0x00, 0x00, 0x84, 0x00, 0x00, 0x00, 0x00, 0x05, 0x00, 0x00, 0x00, 0x00]);
    for i in 0..5u8 {
        push_name(&mut b, "host.local");
        push_fixed(&mut b, 1, 1, 120);
        push_rdata(&mut b, &[10, 0, 0, i]);
    }
    let msg = Message::from_bytes(&b).unwrap();
    assert_eq!(msg.id(), 0);
    assert!(msg.qr() == QR::Response);
    assert!(msg.is_response());
    assert!(!msg.is_query());
    assert!(msg.aa());
    assert!(!msg.tc());
    assert!(!msg.rd());
    assert!(!msg.ra());
    assert!(!msg.z());
    assert!(!msg.ad());
    assert!(!msg.cd());
    assert_eq!(msg.opcode(), Opcode::Query);
    assert_eq!(msg.response_code(), ResponseCode::NoError);
    assert_eq!(msg.qd_count(), 0);
    assert_eq!(msg.an_count(), 5);
    assert_eq!(msg.ns_count(), 0);
    assert_eq!(msg.ar_count(), 0);
    assert_eq!(msg.answers().len(), 5);
    assert_eq!(msg.answers()[4].data(), &[10, 0, 0, 4]);
}

#[test]
fn header_bits_decode() {
    let mut b = Vec::new();
    header(&mut b, 0x17f5, 0, 0, 0, 0);
    b[0] = 0x12;
    b[1] = 0x34;
    let msg = Message::from_bytes(&b).unwrap();
    assert_eq!(msg.id(), 0x1234);
    assert!(msg.is_query());
    assert_eq!(msg.opcode(), Opcode::Status);
    assert!(msg.aa());
    assert!(msg.tc());
    assert!(msg.rd());
    assert!(msg.ra());
    assert!(msg.z());
    assert!(msg.ad());
    assert!(msg.cd());
    assert_eq!(msg.response_code(), ResponseCode::Refused);
}

#[test]
fn query_message() {
    struct Expected {
        name: String,
    }
    struct Test {
        query: Query,
        expected: Expected,
    }

    let tests = vec![Test {
        query: Query::with("_http._tcp", "local"),
        expected: Expected { name: "_http._tcp.local".to_string() },
    }];

    for test in tests {
        let query = QueryMessage::new(&test.query);
        let query_bytes = query.to_bytes();
        assert!(query_bytes.is_ok());
        let query_bytes = query_bytes.unwrap();
        let msg = Message::from_bytes(&query_bytes);
        assert!(msg.is_ok());
        let msg = msg.unwrap();
        assert_eq!(msg.qd_count(), 1);
        let question = &msg.questions()[0];
        assert_eq!(question.name(), test.expected.name);
        assert_eq!(question.typ(), Type::PTR);
        assert_eq!(question.class(), Class::IN);
    }
}

#[test]
fn meta_query_encode() {
    let query = Query::with("_services._dns-sd._udp", "local");
    assert_eq!(query.to_string(), "_services._dns-sd._udp.local");
    let bytes = QueryMessage::new(&query).to_bytes().unwrap();
    assert_eq!(&bytes[..12], &[0, 0, 0, 0, 0, 1, 0, 0, 0, 0, 0, 0]);
    let msg = Message::from_bytes(&bytes).unwrap();
    assert_eq!(msg.qd_count(), 1);
    let q = &msg.questions()[0];
    assert_eq!(q.name(), "_services._dns-sd._udp.local");
    assert_eq!(q.typ(), Type::PTR);
    assert_eq!(q.class(), Class::IN);
    assert!(!q.unicast_response());
    assert_eq!(q.ttl(), 0);
    assert!(q.data().is_empty());
}

#[test]
fn short_buffer_fails_parse() {
    for n in 0..12 {
        let b = vec![0u8; n];
        let err = Message::from_bytes(&b).err().unwrap();
        assert_eq!(err.kind, ErrorKind::ShortBuffer);
    }
    assert!(Message::from_bytes(&[0u8; 12]).is_ok());
}

#[test]
fn counts_beyond_records_fail_parse() {
    let mut b = Vec::new();
    header(&mut b, 0, 1, 0, 0, 0);
    let err = Message::from_bytes(&b).err().unwrap();
    assert_eq!(err.kind, ErrorKind::ShortBuffer);
    let mut m = Message::new();
    assert!(m.parse_bytes(&b).is_err());
    assert_eq!(m.qd_count(), 0);
}

fn record(name: &str, typ: Type, ttl: u32, data: Vec<u8>) -> Record {
    let mut r = Record::new();
    r.set_name(name);
    r.set_typ(typ);
    r.set_class(Class::IN);
    r.set_ttl(ttl);
    r.set_data(data);
    r
}

#[test]
fn serialize_then_parse_round_trips() {
    let mut m = Message::new();
    m.set_id(0x4242);
    m.set_qr(QR::Response);
    let mut q = Record::new();
    q.set_name("_http._tcp.local");
    q.set_typ(Type::PTR);
    q.set_class(Class::IN);
    q.set_unicast_response(true);
    m.add_question(q);
    m.add_answer(record("web._http._tcp.local", Type::SRV, 120, vec![0, 1, 0, 2, 0x1f, 0x90, 1, b'h', 0]));
    m.add_authority(record("h", Type::A, 7, vec![1, 2, 3, 4]));
    let mut flush = record("h", Type::AAAA, 9, vec![0; 16]);
    flush.set_unicast_response(true);
    m.add_additional(flush);
    m.add_additional(record("x", Type::MX, 1, vec![]));
    let bytes = m.to_bytes().unwrap();
    let p = Message::from_bytes(&bytes).unwrap();
    assert_eq!(p.id(), 0x4242);
    assert!(p.is_response());
    assert_eq!((p.qd_count(), p.an_count(), p.ns_count(), p.ar_count()), (1, 1, 1, 2));
    assert_eq!(p.questions()[0].name(), "_http._tcp.local");
    assert!(p.questions()[0].unicast_response());
    assert_eq!(p.answers()[0].typ(), Type::SRV);
    assert_eq!(p.answers()[0].data(), &[0, 1, 0, 2, 0x1f, 0x90, 1, b'h', 0]);
    assert_eq!(p.authorities()[0].ttl(), 7);
    assert!(p.additionals()[0].unicast_response());
    assert_eq!(p.additionals()[0].typ(), Type::AAAA);
    assert_eq!(p.additionals()[1].typ(), Type::MX);
    assert_eq!(p.to_bytes().unwrap(), bytes);
    let c = p.clone();
    assert_eq!(c.to_bytes().unwrap(), bytes);
}

#[test]
fn serialize_rejects_counts_out_of_sync() {
    let mut m = Message::new();
    m.set_an_count(3);
    assert_eq!(m.to_bytes().err().unwrap().kind, ErrorKind::Encode);
    m.set_an_count(0);
    m.set_qd_count(0);
    m.set_ns_count(0);
    m.set_ar_count(0);
    assert_eq!(m.to_bytes().unwrap().len(), 12);
}

#[test]
fn unicast_bit_splits_from_class() {
    let mut b = Vec::new();
    header(&mut b, 0, 1, 0, 0, 0);
    push_name(&mut b, "a");
    b.extend_from_slice(&[0x00, 0x0c, 0x80, 0x01]);
    let m = Message::from_bytes(&b).unwrap();
    assert_eq!(m.questions()[0].class(), Class::IN);
    assert!(m.questions()[0].unicast_response());
    let out = m.to_bytes().unwrap();
    assert_eq!(out, b);
    let mut b2 = Vec::new();
    header(&mut b2, 0, 1, 0, 0, 0);
    push_name(&mut b2, "a");
    b2.extend_from_slice(&[0x00, 0x0c, 0x00, 0x05]);
    let m2 = Message::from_bytes(&b2).unwrap();
    assert_eq!(m2.questions()[0].class(), Class::NONE);
    assert!(!m2.questions()[0].unicast_response());
}

#[test]
fn unknown_type_is_left_out_of_views() {
    let mut m = Message::new();
    m.add_answer(record("mx.local", Type::MX, 1, vec![0, 10, 0]));
    m.add_answer(record("a.local", Type::A, 1, vec![1, 1, 1, 1]));
    m.add_additional(record("short.local", Type::A, 1, vec![1, 1]));
    let views = m.resource_records();
    assert_eq!(views.len(), 1);
    assert_eq!(views[0].name(), "a.local");
    assert_eq!(views[0].typ(), Type::A);
    assert_eq!(views[0].content(), "");
    assert_eq!(m.answers().len(), 2);
    assert_eq!(m.answers()[0].typ(), Type::MX);
    assert_eq!(m.to_string(), "a.local A \n");
    let err = m.answers()[0].to_resource_record().err().unwrap();
    assert_eq!(err.kind, ErrorKind::UnsupportedType);
    assert!(matches!(m.answers()[1].to_resource_record(), Ok(ResourceRecord::A(_))));
}

#[test]
fn find_record_takes_the_first_in_section_order() {
    let mut m = Message::new();
    m.add_additional(record("n", Type::A, 3, vec![3, 3, 3, 3]));
    m.add_answer(record("n", Type::A, 1, vec![1, 1, 1, 1]));
    m.add_answer(record("n", Type::A, 2, vec![2, 2, 2, 2]));
    assert_eq!(m.find_record("n").unwrap().ttl(), 1);
    assert!(m.find_record("m").is_none());
    let mut q = Record::new();
    q.set_name("n");
    m.add_question(q);
    assert_eq!(m.find_record("n").unwrap().ttl(), 0);
}
