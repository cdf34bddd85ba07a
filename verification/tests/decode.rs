use tds_money::error::Error;
use tds_money::money::{decode, ColumnData, MONEY_SCALE};
use tds_money::numeric::Numeric;
use tds_money::reader::ByteReader;

fn reader(bytes: &[u8]) -> ByteReader {
    ByteReader::new(bytes.to_vec())
}

fn expect_numeric(r: Result<ColumnData, Error>) -> Numeric {
    match r {
        Ok(ColumnData::Numeric(Some(n))) => n,
        other => panic!("expected a non-null numeric, got {:?}", other),
    }
}

#[test]
fn null_length_returns_null_and_reads_nothing() {
    // Source contents are irrelevant for len == 0: nothing is read.
    let mut src = reader(&[0xAB, 0xCD, 0xEF]);
    let r = decode(&mut src, 0);
    assert_eq!(r, Ok(ColumnData::Numeric(None)));
    assert_eq!(src.remaining_len(), 3);
}

#[test]
fn null_length_on_empty_source() {
    let mut src = reader(&[]);
    let r = decode(&mut src, 0);
    assert_eq!(r, Ok(ColumnData::Numeric(None)));
    assert_eq!(src.remaining_len(), 0);
}

#[test]
fn smallmoney_minus_one() {
    let mut src = reader(&[0xFF, 0xFF, 0xFF, 0xFF]);
    let n = expect_numeric(decode(&mut src, 4));
    assert_eq!(n.value(), -1);
    assert_eq!(n.scale(), 4);
    assert_eq!(src.remaining_len(), 0);
}

#[test]
fn smallmoney_one_ten_thousandth() {
    let mut src = reader(&[0x01, 0x00, 0x00, 0x00]);
    let n = expect_numeric(decode(&mut src, 4));
    assert_eq!(n.value(), 1);
    assert_eq!(n.scale(), 4);
}

#[test]
fn smallmoney_most_negative() {
    let mut src = reader(&[0x00, 0x00, 0x00, 0x80]);
    let n = expect_numeric(decode(&mut src, 4));
    assert_eq!(n.value(), -2147483648);
    assert_eq!(n.scale(), 4);
}

#[test]
fn smallmoney_little_endian_order() {
    // 0x04030201 = 67305985
    let mut src = reader(&[0x01, 0x02, 0x03, 0x04]);
    let n = expect_numeric(decode(&mut src, 4));
    assert_eq!(n.value(), 67305985);
}

#[test]
fn money_high_one_low_zero() {
    let mut src = reader(&[0x01, 0x00, 0x00, 0x00, 0x00, 0x00, 0x00, 0x00]);
    let n = expect_numeric(decode(&mut src, 8));
    assert_eq!(n.value(), 4294967296);
    assert_eq!(n.scale(), 4);
    assert_eq!(src.remaining_len(), 0);
}

#[test]
fn money_all_ones_is_minus_one() {
    let mut src = reader(&[0xFF; 8]);
    let n = expect_numeric(decode(&mut src, 8));
    assert_eq!(n.value(), -1);
    assert_eq!(n.scale(), 4);
}

#[test]
fn money_low_word_is_not_sign_extended() {
    // high = 0, low = 0xFFFFFFFF: the low word's set bits must not drag the
    // composite negative.
    let mut src = reader(&[0x00, 0x00, 0x00, 0x00, 0xFF, 0xFF, 0xFF, 0xFF]);
    let n = expect_numeric(decode(&mut src, 8));
    assert_eq!(n.value(), 4294967295);
}

#[test]
fn money_high_minus_one_low_zero() {
    let mut src = reader(&[0xFF, 0xFF, 0xFF, 0xFF, 0x00, 0x00, 0x00, 0x00]);
    let n = expect_numeric(decode(&mut src, 8));
    assert_eq!(n.value(), -4294967296);
}

#[test]
fn scale_is_four_for_both_widths() {
    for bytes in [&[0x39, 0x30, 0x00, 0x00][..], &[0x40, 0xE2, 0x01, 0x00][..]] {
        let mut src = reader(bytes);
        let n = expect_numeric(decode(&mut src, 4));
        assert_eq!(n.scale(), MONEY_SCALE);
    }
    let mut src = reader(&[0x12, 0x34, 0x56, 0x78, 0x9A, 0xBC, 0xDE, 0xF0]);
    let n = expect_numeric(decode(&mut src, 8));
    assert_eq!(n.scale(), MONEY_SCALE);
}

#[test]
fn invalid_length_fails_without_reading() {
    for len in [1u8, 2, 3, 5, 6, 7, 9, 255] {
        let mut src = reader(&[0x11, 0x22, 0x33, 0x44, 0x55, 0x66, 0x77, 0x88]);
        match decode(&mut src, len) {
            Err(Error::Protocol(_)) => {}
            other => panic!("length {} should be a protocol error, got {:?}", len, other),
        }
        assert_eq!(src.remaining_len(), 8, "length {} must consume nothing", len);
    }
}

#[test]
fn invalid_length_message_names_the_length() {
    let mut src = reader(&[]);
    match decode(&mut src, 3) {
        Err(Error::Protocol(m)) => assert_eq!(m, "money: length of 3 is invalid"),
        other => panic!("expected a protocol error, got {:?}", other),
    }
    match decode(&mut src, 42) {
        Err(Error::Protocol(m)) => assert_eq!(m, "money: length of 42 is invalid"),
        other => panic!("expected a protocol error, got {:?}", other),
    }
    match decode(&mut src, 255) {
        Err(Error::Protocol(m)) => assert_eq!(m, "money: length of 255 is invalid"),
        other => panic!("expected a protocol error, got {:?}", other),
    }
}

#[test]
fn short_source_fails_smallmoney() {
    let mut src = reader(&[0x01, 0x02]);
    assert_eq!(decode(&mut src, 4), Err(Error::UnexpectedEof));
    assert_eq!(src.remaining_len(), 2);
}

#[test]
fn short_source_fails_money_mid_field() {
    // Enough for the high word, not for the low one: the error comes from the
    // second primitive read.
    let mut src = reader(&[0x01, 0x02, 0x03, 0x04, 0x05, 0x06]);
    assert_eq!(decode(&mut src, 8), Err(Error::UnexpectedEof));
    assert_eq!(src.remaining_len(), 2);
}

#[test]
fn decoding_twice_gives_equal_values() {
    let payloads: [&[u8]; 3] = [
        &[],
        &[0x9A, 0x02, 0x00, 0x00],
        &[0xE0, 0x2E, 0x00, 0x00, 0x01, 0x00, 0x00, 0x00],
    ];
    let lengths = [0u8, 4, 8];
    for (bytes, len) in payloads.iter().zip(lengths.iter()) {
        let mut a = reader(bytes);
        let mut b = reader(bytes);
        assert_eq!(decode(&mut a, *len), decode(&mut b, *len));
    }
}

#[test]
fn reader_reads_words_in_order() {
    let mut src = reader(&[0x01, 0x00, 0x00, 0x00, 0x02, 0x00, 0x00, 0x00]);
    assert_eq!(src.read_i32_le(), Ok(1));
    assert_eq!(src.read_u32_le(), Ok(2));
    assert_eq!(src.read_u32_le(), Err(Error::UnexpectedEof));
}

#[test]
fn numeric_keeps_mantissa_and_scale() {
    let n = Numeric::new_with_scale(123456789, 4);
    assert_eq!(n.value(), 123456789);
    assert_eq!(n.scale(), 4);
}
