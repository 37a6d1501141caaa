use celeste_rs::utils::binary::{BinReadError, BinReader, BinWriter};

#[test]
fn integers_write_little_endian_and_read_back() {
    let mut w = BinWriter::new();
    w.write_u8(0xAB);
    w.write_i16(-2);
    w.write_u32(0x0102_0304);
    w.write_i64(-1);
    w.write_bool(true);
    let bytes = w.finish();
    assert_eq!(
        bytes,
        vec![0xAB, 0xFE, 0xFF, 0x04, 0x03, 0x02, 0x01, 0xFF, 0xFF, 0xFF, 0xFF, 0xFF, 0xFF, 0xFF, 0xFF, 1]
    );
    let mut r = BinReader::new(&bytes);
    assert_eq!(r.read_u8().unwrap(), 0xAB);
    assert_eq!(r.read_i16().unwrap(), -2);
    assert_eq!(r.read_u32().unwrap(), 0x0102_0304);
    assert_eq!(r.read_i64().unwrap(), -1);
    assert!(r.read_bool().unwrap());
    assert!(r.at_end());
}

#[test]
fn varint_takes_seven_bits_per_byte() {
    let mut w = BinWriter::new();
    w.write_varint(300);
    w.write_varint(5);
    let bytes = w.finish();
    assert_eq!(bytes, vec![0xAC, 0x02, 0x05]);
    let mut r = BinReader::new(&bytes);
    assert_eq!(r.read_varint().unwrap(), 300);
    assert_eq!(r.read_varint().unwrap(), 5);
}

#[test]
fn varint_longer_than_five_bytes_is_refused() {
    let bytes = vec![0x80u8, 0x80, 0x80, 0x80, 0x80, 0x01];
    let mut r = BinReader::new(&bytes);
    assert!(matches!(r.read_varint(), Err(BinReadError::InvalidVarint(0, 0x80))));
}

#[test]
fn reading_past_the_end_fails() {
    let bytes = vec![1u8];
    let mut r = BinReader::new(&bytes);
    assert_eq!(r.read_u16(), Err(BinReadError::EndOfBuffer));
    assert!(r.at_end());
    assert_eq!(r.read_u8(), Err(BinReadError::EndOfBuffer));
}

#[test]
fn bool_other_than_zero_or_one_is_refused() {
    let bytes = vec![2u8];
    let mut r = BinReader::new(&bytes);
    assert_eq!(r.read_bool(), Err(BinReadError::InvalidBoolPattern(2)));
}

#[test]
fn string_is_prefixed_by_its_length() {
    let mut w = BinWriter::new();
    w.write_string("hello");
    let bytes = w.finish();
    assert_eq!(bytes, vec![5, b'h', b'e', b'l', b'l', b'o']);
    let mut r = BinReader::new(&bytes);
    assert_eq!(r.read_string().unwrap(), "hello");
}

#[test]
fn string_longer_than_the_data_fails() {
    let bytes = vec![3u8, b'a'];
    let mut r = BinReader::new(&bytes);
    assert_eq!(r.read_string(), Err(BinReadError::EndOfBuffer));
}

#[test]
fn run_length_encoding_counts_runs() {
    let mut w = BinWriter::new();
    w.write_length_encoded_string("aaab");
    let bytes = w.finish();
    assert_eq!(bytes, vec![4, 0, 3, b'a', 1, b'b']);
    let mut r = BinReader::new(&bytes);
    assert_eq!(r.read_length_encoded_string().unwrap(), "aaab");
}

#[test]
fn run_length_encoding_of_nothing_is_a_zero_count() {
    let mut w = BinWriter::new();
    w.write_length_encoded_string("");
    let bytes = w.finish();
    assert_eq!(bytes, vec![0, 0]);
    let mut r = BinReader::new(&bytes);
    assert_eq!(r.read_length_encoded_string().unwrap(), "");
}

#[test]
fn runs_stop_at_255() {
    let s = "z".repeat(300);
    let mut w = BinWriter::new();
    w.write_length_encoded_string(&s);
    let bytes = w.finish();
    assert_eq!(bytes, vec![4, 0, 255, b'z', 45, b'z']);
    let mut r = BinReader::new(&bytes);
    assert_eq!(r.read_length_encoded_string().unwrap(), s);
}

#[test]
fn restart_and_seek_move_the_cursor() {
    let bytes = vec![10u8, 20, 30];
    let mut r = BinReader::new(&bytes);
    assert_eq!(r.read_u8().unwrap(), 10);
    r.seek(2);
    assert_eq!(r.read_u8().unwrap(), 30);
    r.restart();
    assert_eq!(r.read_u8().unwrap(), 10);
}

#[test]
fn chars_are_single_bytes() {
    let mut w = BinWriter::new();
    w.write_char('A');
    w.write_i8(-1);
    let bytes = w.finish();
    assert_eq!(bytes, vec![65, 255]);
    let mut r = BinReader::new(&bytes);
    assert_eq!(r.read_char().unwrap(), 'A');
    assert_eq!(r.read_i8().unwrap(), -1);
}
