use mdns::dns::a_record::ARecord;
use mdns::dns::aaaa_record::AAAARecord;
use mdns::dns::class::Class;
use mdns::dns::error::ErrorKind;
use mdns::dns::ipaddr::IpAddr;
use mdns::dns::nsec_record::NSECRecord;
use mdns::dns::ptr_record::PTRRecord;
use mdns::dns::question_record::QuestionRecord;
use mdns::dns::record::Record;
use mdns::dns::srv_record::SRVRecord;
use mdns::dns::txt_record::TXTRecord;
use mdns::dns::typ::Type;

fn with_data(name: &str, typ: Type, data: Vec<u8>) -> Record {
    let mut r = Record::new();
    r.set_name(name);
    r.set_typ(typ);
    r.set_data(data);
    r
}

#[test]
fn a_record_reads_ipv4() {
    let r = with_data("host.local", Type::A, vec![0xc0, 0xa8, 0x01, 0x05]);
    let a = ARecord::from_record(&r).unwrap();
    assert_eq!(a.ipaddr(), IpAddr::V4(192, 168, 1, 5));
    assert_eq!(a.name(), "host.local");
    assert_eq!(a.typ(), Type::A);
}

#[test]
fn a_record_needs_four_octets() {
    let r = with_data("h", Type::A, vec![1, 2, 3]);
    assert_eq!(ARecord::from_record(&r).err().unwrap().kind, ErrorKind::MalformedRecord);
}

#[test]
fn aaaa_record_reads_ipv6() {
    let data = vec![0x20, 0x01, 0x0d, 0xb8, 0, 0, 0, 0, 0, 0, 0, 0, 0, 0, 0x12, 0x34];
    let a = AAAARecord::from_record(&with_data("h", Type::AAAA, data)).unwrap();
    assert_eq!(a.ipaddr(), IpAddr::V6(0x2001, 0x0db8, 0, 0, 0, 0, 0, 0x1234));
    assert_eq!(a.typ(), Type::AAAA);
    assert_eq!(a.name(), "h");
    let short = with_data("h", Type::AAAA, vec![0; 15]);
    assert_eq!(AAAARecord::from_record(&short).err().unwrap().kind, ErrorKind::MalformedRecord);
}

#[test]
fn txt_attributes() {
    let data = vec![0x07, 0x6b, 0x65, 0x79, 0x3d, 0x76, 0x61, 0x6c, 0x03, 0x6b, 0x32, 0x3d];
    let txt = TXTRecord::from_record(&with_data("svc", Type::TXT, data)).unwrap();
    assert_eq!(txt.strings(), &vec!["key=val".to_string(), "k2=".to_string()]);
    assert_eq!(
        txt.attributes(),
        &vec![("key".to_string(), "val".to_string()), ("k2".to_string(), "".to_string())]
    );
    assert_eq!(txt.attribute("key").unwrap(), "val");
    assert_eq!(txt.attribute("k2").unwrap(), "");
    assert!(txt.attribute("k3").is_none());
    assert_eq!(txt.name(), "svc");
    assert_eq!(txt.typ(), Type::TXT);
}

#[test]
fn txt_first_key_wins() {
    let mut data = Vec::new();
    for s in ["a=1", "flag", "a=2", "b==x"] {
        data.push(s.len() as u8);
        data.extend_from_slice(s.as_bytes());
    }
    let txt = TXTRecord::from_record(&with_data("svc", Type::TXT, data)).unwrap();
    assert_eq!(txt.attribute("a").unwrap(), "1");
    assert_eq!(txt.attribute("flag").unwrap(), "");
    assert_eq!(txt.attribute("b").unwrap(), "=x");
    assert_eq!(txt.attributes().len(), 3);
}

#[test]
fn txt_truncated_string_fails() {
    let txt = TXTRecord::from_record(&with_data("svc", Type::TXT, vec![5, b'a']));
    assert_eq!(txt.err().unwrap().kind, ErrorKind::ShortBuffer);
}

#[test]
fn srv_fields_and_owner_split() {
    let mut data = vec![0x00, 0x0a, 0x00, 0x14, 0x1f, 0x90];
    data.extend_from_slice(&[4, b'h', b'o', b's', b't', 5, b'l', b'o', b'c', b'a', b'l', 0]);
    let srv = SRVRecord::from_record(&with_data("web._http._tcp.local", Type::SRV, data)).unwrap();
    assert_eq!(srv.priority(), 10);
    assert_eq!(srv.weight(), 20);
    assert_eq!(srv.port(), 8080);
    assert_eq!(srv.target(), "host.local");
    assert_eq!(srv.name(), "web");
    assert_eq!(srv.service(), "_http");
    assert_eq!(srv.proto(), "_tcp");
    assert_eq!(srv.typ(), Type::SRV);
}

#[test]
fn srv_needs_six_octets() {
    let srv = SRVRecord::from_record(&with_data("s", Type::SRV, vec![0, 1, 0, 2, 0]));
    assert_eq!(srv.err().unwrap().kind, ErrorKind::MalformedRecord);
    let empty = SRVRecord::from_record(&with_data("s", Type::SRV, vec![]));
    assert_eq!(empty.err().unwrap().kind, ErrorKind::MalformedRecord);
}

#[test]
fn ptr_reads_name_from_rdata() {
    let data = vec![3, b'w', b'e', b'b', 5, b'l', b'o', b'c', b'a', b'l', 0];
    let ptr = PTRRecord::from_record(&with_data("_http._tcp.local", Type::PTR, data)).unwrap();
    assert_eq!(ptr.domain_name(), "web.local");
    assert_eq!(ptr.name(), "_http._tcp.local");
    let empty = PTRRecord::from_record(&with_data("p", Type::PTR, vec![]));
    assert_eq!(empty.err().unwrap().kind, ErrorKind::MalformedRecord);
}

#[test]
fn nsec_keeps_owner() {
    let n = NSECRecord::from_record(&with_data("host.local", Type::NSEC, vec![0xc0, 0x0c])).unwrap();
    assert_eq!(n.name(), "host.local");
    assert_eq!(n.typ(), Type::NSEC);
}

#[test]
fn question_record_defaults() {
    let q = QuestionRecord::new();
    assert_eq!(q.typ(), Type::PTR);
    assert_eq!(q.class(), Class::IN);
    assert_eq!(q.name(), "");
    assert!(!q.unicast_response());
    assert_eq!(q.ttl(), 0);
}

#[test]
fn type_values_and_names() {
    assert_eq!(Type::from_value(0x21), Type::SRV);
    assert_eq!(Type::from_value(0x9999), Type::NONE);
    assert_eq!(Type::AAAA.to_value(), 28);
    assert_eq!(Type::NSEC.to_value(), 47);
    assert_eq!(Type::TXT.to_string(), "TXT");
    assert_eq!(Type::default(), Type::NONE);
    assert_eq!(Class::from_value(1), Class::IN);
    assert_eq!(Class::from_value(7), Class::NONE);
    assert_eq!(Class::IN.to_value(), 1);
}

#[test]
fn record_clone_keeps_fields() {
    let r = with_data("n", Type::A, vec![1, 2, 3, 4]);
    let c = r.clone();
    assert_eq!(c.name(), "n");
    assert_eq!(c.data(), &[1, 2, 3, 4]);
    assert_eq!(c.typ(), Type::A);
}

#[test]
fn txt_keys_ignore_ascii_case() {
    let mut data = Vec::new();
    for s in ["Key=1", "KEY=2", "other=x"] {
        data.push(s.len() as u8);
        data.extend_from_slice(s.as_bytes());
    }
    let txt = TXTRecord::from_record(&with_data("svc", Type::TXT, data)).unwrap();
    assert_eq!(txt.attributes().len(), 2);
    assert_eq!(txt.attribute("key").unwrap(), "1");
    assert_eq!(txt.attribute("OTHER").unwrap(), "x");
}
