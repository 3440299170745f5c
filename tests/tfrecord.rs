use dl_driver::tfrecord::{
    encode_example, encode_varint, frame_records, mask_crc, masked_crc32c, read_records, u32_le_bytes,
    u64_le_bytes, write_raw_record, TfRecordError, TfRecordFormat,
};

#[test]
fn varints() {
    let mut b = Vec::new();
    encode_varint(&mut b, 1);
    assert_eq!(b, vec![1]);
    let mut b = vec![9];
    encode_varint(&mut b, 300);
    assert_eq!(b, vec![9, 0xac, 0x02]);
    let mut b = Vec::new();
    encode_varint(&mut b, u64::MAX);
    assert_eq!(b.len(), 10);
    assert_eq!(b[9], 1);
}

#[test]
fn crc_of_check_string() {
    let crc = crc32c::crc32c(b"123456789");
    assert_eq!(crc, 0xE306_9283);
    assert_eq!(masked_crc32c(b"123456789"), mask_crc(0xE306_9283));
    assert_ne!(masked_crc32c(b"123456789"), 0xE306_9283);
}

#[test]
fn mask_values() {
    assert_eq!(mask_crc(0), 0xa282_ead8);
    let x: u32 = 0x1234_5678;
    assert_eq!(mask_crc(x), x.rotate_right(15).wrapping_add(0xa282_ead8));
    let y: u32 = 0xffff_ffff;
    assert_eq!(mask_crc(y), y.rotate_right(15).wrapping_add(0xa282_ead8));
}

#[test]
fn little_endian_bytes() {
    assert_eq!(u32_le_bytes(0x0102_0304), vec![4, 3, 2, 1]);
    assert_eq!(u64_le_bytes(0x0102_0304_0506_0708), 0x0102_0304_0506_0708u64.to_le_bytes().to_vec());
}

#[test]
fn record_layout() {
    let mut buf = Vec::new();
    let n = write_raw_record(&mut buf, b"abc");
    assert_eq!(n, 19);
    assert_eq!(buf.len(), 19);
    assert_eq!(&buf[0..8], &3u64.to_le_bytes());
    assert_eq!(&buf[8..12], &masked_crc32c(&3u64.to_le_bytes()).to_le_bytes());
    assert_eq!(&buf[12..15], b"abc");
    assert_eq!(&buf[15..19], &masked_crc32c(b"abc").to_le_bytes());
}

#[test]
fn tfrecord_generate_and_read() {
    let fmt = TfRecordFormat::new(10, 128);
    let payloads: Vec<Vec<u8>> = (0..10u8).map(|i| encode_example(&vec![i; fmt.floats_per_example() * 4])).collect();
    let bytes = frame_records(&payloads);
    assert_eq!(fmt.read_from_bytes(&bytes), Ok(()));
}

#[test]
fn tfrecord_single_record() {
    let fmt = TfRecordFormat::new(1, 64);
    let bytes = frame_records(&vec![encode_example(&vec![7u8; fmt.floats_per_example() * 4])]);
    assert_eq!(fmt.read_from_bytes(&bytes), Ok(()));
}

#[test]
fn tfrecord_large_records() {
    let fmt = TfRecordFormat::new(5, 1024);
    assert_eq!(fmt.floats_per_example(), 193);
    let payloads: Vec<Vec<u8>> = (0..5u8).map(|i| encode_example(&vec![i; fmt.floats_per_example() * 4])).collect();
    let bytes = frame_records(&payloads);
    assert_eq!(fmt.read_from_bytes(&bytes), Ok(()));
}

#[test]
fn read_detects_faults() {
    let bytes = frame_records(&vec![b"hello".to_vec(), b"world".to_vec()]);
    assert_eq!(read_records(&bytes, 2), Ok(()));
    assert_eq!(read_records(&bytes, 3), Err(TfRecordError::CountMismatch { expected: 3, found: 2 }));
    assert_eq!(read_records(&bytes[..4], 1), Err(TfRecordError::TruncatedLength(0)));
    assert_eq!(read_records(&bytes[..10], 1), Err(TfRecordError::TruncatedLengthCrc(0)));
    assert_eq!(read_records(&bytes[..14], 1), Err(TfRecordError::TruncatedData(0)));
    assert_eq!(read_records(&bytes[..19], 1), Err(TfRecordError::TruncatedDataCrc(0)));
    let mut bad = bytes.clone();
    bad[13] ^= 1;
    assert_eq!(read_records(&bad, 2), Err(TfRecordError::DataCrcMismatch(0)));
    let mut bad = bytes.clone();
    bad[21 + 8] ^= 1;
    assert_eq!(read_records(&bad, 2), Err(TfRecordError::LengthCrcMismatch(1)));
    assert_eq!(read_records(&[], 0), Ok(()));
}

#[test]
fn example_message_layout() {
    let packed = vec![0u8; 8];
    let ex = encode_example(&packed);
    let expected: Vec<u8> = vec![
        0x0a, 23, 0x0a, 21, 0x0a, 5, b'i', b'm', b'a', b'g', b'e', 0x12, 12, 0x12, 10, 0x0a, 8, 0, 0, 0, 0, 0, 0, 0,
        0,
    ];
    assert_eq!(ex, expected);
    let fmt = TfRecordFormat::new(3, 100);
    assert_eq!(fmt.floats_per_example(), 16);
    assert_eq!(fmt.num_records(), 3);
    assert_eq!(fmt.target_record_size(), 100);
    assert_eq!(fmt.file_extension(), "tfrecord");
}
