use mdns::dns::error::ErrorKind;
use mdns::dns::reader::Reader;

#[test]
fn reader_read_bytes() {
    let mut reader = Reader::new(&[0x01, 0x02, 0x03]);
    let mut buf = [0; 1];
    assert!(reader.read_bytes(&mut buf).is_ok());
    assert_eq!(buf, [0x01]);
    assert!(reader.read_bytes(&mut buf).is_ok());
    assert_eq!(buf, [0x02]);
    assert!(reader.read_bytes(&mut buf).is_ok());
    assert_eq!(buf, [0x03]);
    assert!(reader.read_bytes(&mut buf).is_err());
}

#[test]
fn reader_read_string() {
    let mut reader = Reader::new(&[0x03, 'a' as u8, 'b' as u8, 'c' as u8]);
    assert_eq!(reader.read_string().unwrap(), "abc");
}

#[test]
fn reader_read_name() {
    struct Test {
        data: Vec<u8>,
        name: String,
    }

    let tests = vec![
        Test {
            data: vec![0x03, 'a' as u8, 'b' as u8, 'c' as u8, 0x00],
            name: "abc".to_string(),
        },
        Test {
            data: vec![
                0x03, 'a' as u8, 'b' as u8, 'c' as u8, 0x03, 'd' as u8, 'e' as u8, 'f' as u8,
                0x00,
            ],
            name: "abc.def".to_string(),
        },
    ];

    for test in tests {
        let mut reader = Reader::new(&test.data);
        assert_eq!(reader.read_name().unwrap(), test.name);
    }
}

#[test]
fn reader_name_with_pointer_at_offset() {
    let data = [0x03, b'a', b'b', b'c', 0x00, 0xc0, 0x00];
    let mut reader = Reader::new(&data);
    reader.set_offset(5);
    assert_eq!(reader.read_name().unwrap(), "abc");
    assert_eq!(reader.offset(), 7);
}

#[test]
fn reader_name_labels_then_pointer() {
    let data = [0x03, b'd', b'e', b'f', 0x00, 0x03, b'a', b'b', b'c', 0xc0, 0x00];
    let mut reader = Reader::from_bytes(&data);
    reader.set_offset(5);
    assert_eq!(reader.read_name().unwrap(), "abc.def");
    assert_eq!(reader.offset(), 11);
}

#[test]
fn reader_pointer_loop_is_malformed() {
    let data = [0xc0, 0x00];
    let mut reader = Reader::new(&data);
    let err = reader.read_name().unwrap_err();
    assert_eq!(err.kind, ErrorKind::MalformedName);
    assert_eq!(reader.offset(), 0);
}

#[test]
fn reader_reserved_label_is_malformed() {
    let data = [0x40, b'a', 0x00];
    let mut reader = Reader::new(&data);
    assert_eq!(reader.read_name().unwrap_err().kind, ErrorKind::MalformedName);
}

#[test]
fn reader_non_utf8_label_is_malformed() {
    let data = [0x02, 0xff, 0xfe, 0x00];
    let mut reader = Reader::new(&data);
    assert_eq!(reader.read_name().unwrap_err().kind, ErrorKind::MalformedName);
}

#[test]
fn reader_truncated_name_is_short() {
    let data = [0x05, b'a', b'b'];
    let mut reader = Reader::new(&data);
    assert_eq!(reader.read_name().unwrap_err().kind, ErrorKind::ShortBuffer);
}

#[test]
fn reader_exact_buffer_then_one_more_fails() {
    let data = [0x12, 0x34, 0x56, 0x78, 0x9a, 0xbc, 0xde];
    let mut reader = Reader::new(&data);
    assert_eq!(reader.read_u32().unwrap(), 0x12345678);
    assert_eq!(reader.read_u16().unwrap(), 0x9abc);
    assert_eq!(reader.read_u8().unwrap(), 0xde);
    assert_eq!(reader.offset(), data.len());
    let err = reader.read_u8().unwrap_err();
    assert_eq!(err.kind, ErrorKind::ShortBuffer);
    assert_eq!(reader.offset(), data.len());
}

#[test]
fn reader_cursor_stays_within_buffer() {
    let data = [0x02, b'h', b'i', 0x01, b'x', 0x00];
    let mut reader = Reader::new(&data);
    let strs = reader.read_strings().unwrap();
    assert_eq!(strs, vec!["hi".to_string(), "x".to_string()]);
    assert_eq!(reader.offset(), 6);
    assert!(reader.offset() <= data.len());
    assert_eq!(reader.read_string_size().unwrap_err().kind, ErrorKind::ShortBuffer);
}

#[test]
fn reader_strings_stop_at_end_of_buffer() {
    let data = [0x01, b'a', 0x02, b'b', b'c'];
    let mut reader = Reader::new(&data);
    assert_eq!(reader.read_strings().unwrap(), vec!["a".to_string(), "bc".to_string()]);
    assert_eq!(reader.offset(), 5);
}

#[test]
fn reader_short_string_keeps_cursor() {
    let data = [0x04, b'a', b'b'];
    let mut reader = Reader::new(&data);
    assert_eq!(reader.read_string().unwrap_err().kind, ErrorKind::ShortBuffer);
    assert_eq!(reader.offset(), 0);
}

#[test]
fn reader_invalid_utf8_string_is_malformed_record() {
    let data = [0x01, 0xff];
    let mut reader = Reader::new(&data);
    assert_eq!(reader.read_string().unwrap_err().kind, ErrorKind::MalformedRecord);
}

#[test]
fn reader_short_read_bytes_leaves_target() {
    let data = [0x01, 0x02];
    let mut reader = Reader::new(&data);
    let mut buf = [9u8; 3];
    assert_eq!(reader.read_bytes(&mut buf).unwrap_err().kind, ErrorKind::ShortBuffer);
    assert_eq!(buf, [9, 9, 9]);
    assert_eq!(reader.offset(), 0);
}
