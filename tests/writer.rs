use mdns::dns::class::Class;
use mdns::dns::error::{Error, ErrorKind};
use mdns::dns::reader::Reader;
use mdns::dns::record::Record;
use mdns::dns::typ::Type;
use mdns::dns::writer::Writer;

#[test]
fn writer_integers_are_big_endian() {
    let mut w = Writer::new();
    assert!(w.write_u8(0x01).is_ok());
    assert!(w.write_u16(0x0203).is_ok());
    assert!(w.write_u32(0x04050607).is_ok());
    assert!(w.write_bytes(&[0x08]).is_ok());
    assert!(w.write_header(&[0x09]).is_ok());
    assert!(w.write_type(Type::SRV).is_ok());
    assert!(w.write_class(Class::IN).is_ok());
    assert!(w.write_ttl(120).is_ok());
    assert_eq!(
        w.to_bytes(),
        vec![0x01, 0x02, 0x03, 0x04, 0x05, 0x06, 0x07, 0x08, 0x09, 0x00, 0x21, 0x00, 0x01, 0, 0, 0, 120]
    );
}

#[test]
fn writer_name_is_uncompressed_labels() {
    let mut w = Writer::new();
    assert!(w.write_name("abc.de").is_ok());
    assert_eq!(w.to_bytes(), vec![3, b'a', b'b', b'c', 2, b'd', b'e', 0]);
}

#[test]
fn writer_root_name_is_one_zero() {
    let mut w = Writer::new();
    assert!(w.write_name("").is_ok());
    assert_eq!(w.to_bytes(), vec![0]);
}

#[test]
fn writer_name_round_trips_through_reader() {
    let names = ["_services._dns-sd._udp.local", "a", "printer._ipp._tcp.local"];
    for name in names {
        let mut w = Writer::new();
        assert!(w.write_name(name).is_ok());
        let bytes = w.to_bytes();
        let mut r = Reader::new(&bytes);
        assert_eq!(r.read_name().unwrap(), name);
        assert_eq!(r.offset(), bytes.len());
    }
}

#[test]
fn writer_rejects_empty_and_long_labels() {
    let mut w = Writer::new();
    assert_eq!(w.write_name("a..b").unwrap_err().kind, ErrorKind::Encode);
    assert_eq!(w.write_name("a.").unwrap_err().kind, ErrorKind::Encode);
    let long = "x".repeat(64);
    assert_eq!(w.write_name(&long).unwrap_err().kind, ErrorKind::Encode);
    assert!(w.write_name(&"x".repeat(63)).is_ok());
    assert_eq!(w.to_bytes().len(), 65);
}

#[test]
fn writer_data_is_length_prefixed() {
    let mut w = Writer::new();
    assert!(w.write_data(&[0xaa, 0xbb]).is_ok());
    assert_eq!(w.to_bytes(), vec![0x00, 0x02, 0xaa, 0xbb]);
    let big = vec![0u8; 0x10000];
    assert_eq!(w.write_data(&big).unwrap_err().kind, ErrorKind::Encode);
    assert_eq!(w.to_bytes().len(), 4);
}

#[test]
fn writer_request_record_sets_unicast_bit() {
    let mut r = Record::new();
    r.set_name("a.b");
    r.set_typ(Type::PTR);
    r.set_class(Class::IN);
    r.set_unicast_response(true);
    let mut w = Writer::new();
    assert!(w.write_request_record(&r).is_ok());
    assert_eq!(w.to_bytes(), vec![1, b'a', 1, b'b', 0, 0x00, 0x0c, 0x80, 0x01]);
}

#[test]
fn writer_response_record_has_ttl_and_data() {
    let mut r = Record::new();
    r.set_name("h");
    r.set_typ(Type::A);
    r.set_class(Class::IN);
    r.set_ttl(0x01020304);
    r.set_data(vec![10, 0, 0, 1]);
    let mut w = Writer::new();
    assert!(w.write_response_record(&r).is_ok());
    assert_eq!(
        w.to_bytes(),
        vec![1, b'h', 0, 0x00, 0x01, 0x00, 0x01, 1, 2, 3, 4, 0x00, 0x04, 10, 0, 0, 1]
    );
}

#[test]
fn error_from_bytes_shows_hex_and_offset() {
    let e = Error::from_bytes(&[0x0a, 0xff, 0x01], 12);
    assert_eq!(e.kind, ErrorKind::ShortBuffer);
    assert_eq!(e.message(), "Invalid bytes 0aff01 (offset:12)");
}

#[test]
fn error_from_text() {
    let e = Error::from_str("boom");
    assert_eq!(e.kind, ErrorKind::Other);
    assert_eq!(e.message(), "boom");
    let s = "bang".to_string();
    assert_eq!(Error::from_string(&s).msg, "bang");
}
