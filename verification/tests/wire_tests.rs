//! Tests of the wire framing: the big-endian integer codec, the header
//! codec and its failure cases, and the destination name policy.
use filestream::receiver::dest_file_name;
use filestream::wire::{encode_header, parse_header, u64_from_be_bytes, u64_to_be_bytes, Header};

#[test]
fn u64_codec_is_big_endian() {
    let bytes = u64_to_be_bytes(0x0102030405060708);
    assert_eq!(bytes, vec![1, 2, 3, 4, 5, 6, 7, 8]);
    assert_eq!(u64_from_be_bytes(&bytes), 0x0102030405060708);
    assert_eq!(u64_to_be_bytes(0), vec![0; 8]);
    assert_eq!(u64_from_be_bytes(&[0, 0, 0, 0, 0, 0, 1, 1]), 257);
    assert_eq!(u64_from_be_bytes(&u64_to_be_bytes(u64::MAX)), u64::MAX);
}

#[test]
fn header_layout_is_exact() {
    let h = Header::new(b"a.txt".to_vec(), 0x0102, 0x01).unwrap();
    let bytes = encode_header(&h);
    let mut expected = vec![5u8];
    expected.extend_from_slice(b"a.txt");
    expected.extend_from_slice(&[0, 0, 0, 0, 0, 0, 1, 2]);
    expected.extend_from_slice(&[0, 0, 0, 0, 0, 0, 0, 1]);
    assert_eq!(bytes, expected);
}

#[test]
fn header_round_trips() {
    let h = Header::new(b"testfile10Mb".to_vec(), 10 * 1024 * 1024, 1048576).unwrap();
    let bytes = encode_header(&h);
    let (parsed, used) = parse_header(&bytes).unwrap();
    assert_eq!(used, bytes.len());
    assert_eq!(parsed.name, b"testfile10Mb".to_vec());
    assert_eq!(parsed.file_size, 10 * 1024 * 1024);
    assert_eq!(parsed.offset, 1048576);
}

#[test]
fn header_round_trips_at_the_extremes() {
    let h = Header::new(vec![b'n'; 255], u64::MAX, u64::MAX - 1).unwrap();
    let bytes = encode_header(&h);
    assert_eq!(bytes.len(), 17 + 255);
    let (parsed, used) = parse_header(&bytes).unwrap();
    assert_eq!(used, bytes.len());
    assert_eq!(parsed.name.len(), 255);
    assert_eq!(parsed.file_size, u64::MAX);
    assert_eq!(parsed.offset, u64::MAX - 1);
}

#[test]
fn header_rejects_bad_names() {
    assert!(Header::new(Vec::new(), 1, 0).is_none());
    assert!(Header::new(vec![b'x'; 256], 1, 0).is_none());
    assert!(Header::new(vec![b'x'; 255], 1, 0).is_some());
}

#[test]
fn parse_rejects_short_or_empty_input() {
    assert!(parse_header(&[]).is_none());
    // A zero name length is not a header.
    assert!(parse_header(&[0u8; 32]).is_none());
    // One byte of name announced, sixteen of integers needed: 17 bytes
    // past the length byte, one short here.
    let mut short = vec![1u8];
    short.extend_from_slice(&[7u8; 16]);
    assert!(parse_header(&short).is_none());
    let mut exact = vec![1u8];
    exact.extend_from_slice(&[7u8; 17]);
    assert!(parse_header(&exact).is_some());
}

#[test]
fn destination_name_appends_suffix_and_strips_directories() {
    assert_eq!(dest_file_name(b"plain"), b"plain.received".to_vec());
    assert_eq!(dest_file_name(b"dir/sub/file.bin"), b"file.bin.received".to_vec());
    assert_eq!(dest_file_name(b"/etc/passwd"), b"passwd.received".to_vec());
    // A name ending in a separator still lands in the working
    // directory, under the bare suffix.
    assert_eq!(dest_file_name(b"dir/"), b".received".to_vec());
    // The longest name the wire can carry.
    let long = vec![b'n'; 255];
    let mut expected = long.clone();
    expected.extend_from_slice(b".received");
    assert_eq!(dest_file_name(&long), expected);
}
