//! The monetary column decoder: reads a length-prefixed `money` /
//! `smallmoney` field from a byte source and produces a scaled fixed-point
//! value or a null marker.
//!
//! Wire format: a declared length of 0 means SQL null and carries no payload;
//! 4 means one little-endian signed 32-bit integer; 8 means one little-endian
//! signed 32-bit integer (high word) followed by one little-endian unsigned
//! 32-bit integer (low word), composed as `(high << 32) | low`. Any other
//! declared length is a protocol violation. Both widths carry a decimal
//! scale of 4.

use vstd::prelude::*;
use crate::error::{Error, invalid_length_message, invalid_length_text};
use crate::numeric::Numeric;
use crate::reader::{ByteReader, le_u32, signed32};

verus! {

/// Both monetary types are sent over the wire with a scale of 4 (the mantissa
/// counts ten-thousandths).
pub const MONEY_SCALE: u8 = 4;

/// One decoded column cell: a numeric value, or SQL null.
#[derive(Clone, Copy, Debug, PartialEq, Eq)]
pub enum ColumnData {
    /// A fixed-point numeric cell; `None` is the null marker.
    Numeric(Option<Numeric>),
}

/// Whether `len` is a declared byte length the wire format allows for a
/// monetary field.
pub open spec fn valid_len(len: u8) -> bool {
    len == 0 || len == 4 || len == 8
}

/// The mantissa encoded by a 4-byte field: one little-endian signed 32-bit
/// integer, sign-extended.
pub open spec fn smallmoney_mantissa(b: Seq<u8>) -> int
    recommends
        b.len() == 4,
{
    signed32(le_u32(b))
}

/// The mantissa encoded by an 8-byte field: a signed high word followed by an
/// unsigned low word, the high word carrying the sign and the low word placed
/// verbatim in the lower 32 bits.
pub open spec fn money_mantissa(b: Seq<u8>) -> int
    recommends
        b.len() == 8,
{
    signed32(le_u32(b.subrange(0, 4))) * 0x1_0000_0000 + le_u32(b.subrange(4, 8))
}

/// How many bytes `decode` consumes from a source whose unread bytes are
/// `input`, under declared length `len`: exactly `len` on success, none on an
/// invalid length, and only the bytes of completed primitive reads when the
/// source runs out mid-field.
pub open spec fn bytes_consumed(input: Seq<u8>, len: u8) -> int {
    if len == 4 {
        if input.len() >= 4 {
            4
        } else {
            0
        }
    } else if len == 8 {
        if input.len() >= 8 {
            8
        } else if input.len() >= 4 {
            4
        } else {
            0
        }
    } else {
        0
    }
}

/// What `decode` returns on a source whose unread bytes are `input`, under
/// declared length `len`.
pub open spec fn decode_result_is(r: Result<ColumnData, Error>, input: Seq<u8>, len: u8) -> bool {
    if len == 0 {
        r == Ok::<ColumnData, Error>(ColumnData::Numeric(None))
    } else if len == 4 {
        if input.len() >= 4 {
            r matches Ok(ColumnData::Numeric(Some(n))) && n.value == smallmoney_mantissa(
                input.take(4),
            ) && n.scale == MONEY_SCALE
        } else {
            r == Err::<ColumnData, Error>(Error::UnexpectedEof)
        }
    } else if len == 8 {
        if input.len() >= 8 {
            r matches Ok(ColumnData::Numeric(Some(n))) && n.value == money_mantissa(input.take(8))
                && n.scale == MONEY_SCALE
        } else {
            r == Err::<ColumnData, Error>(Error::UnexpectedEof)
        }
    } else {
        r matches Err(Error::Protocol(m)) && m@ == invalid_length_message(len)
    }
}

/// Decodes one monetary column value.
///
/// A declared length of 0 yields the null marker and touches the source not
/// at all; 4 reads one signed word; 8 reads the signed high word and then the
/// unsigned low word and composes them; any other length fails with a
/// protocol error naming it, again without touching the source. A source
/// that runs out mid-field fails with the source's own error. Every value
/// produced carries scale 4.
pub fn decode(src: &mut ByteReader, len: u8) -> (r: Result<ColumnData, Error>)
    requires
        old(src).wf(),
    ensures
        final(src).wf(),
        final(src).data() == old(src).data(),
        final(src).position() == old(src).position() + bytes_consumed(old(src).remaining(), len),
        decode_result_is(r, old(src).remaining(), len),
{
    match len {
        0 => Ok(ColumnData::Numeric(None)),
        4 => {
            let value = match src.read_i32_le() {
                Ok(v) => v,
                Err(e) => {
                    return Err(e);
                },
            };
            let value = Numeric::new_with_scale(value as i128, MONEY_SCALE);
            Ok(ColumnData::Numeric(Some(value)))
        },
        8 => {
            let high = match src.read_i32_le() {
                Ok(v) => v,
                Err(e) => {
                    return Err(e);
                },
            };
            proof {
                let input = old(src).remaining();
                if input.len() >= 8 {
                    assert(src.remaining().take(4) =~= input.take(8).subrange(4, 8));
                    assert(input.take(4) =~= input.take(8).subrange(0, 4));
                }
            }
            let low = match src.read_u32_le() {
                Ok(v) => v,
                Err(e) => {
                    return Err(e);
                },
            };
            let value: i64 = (high as i64) * 0x1_0000_0000 + (low as i64);
            let value = Numeric::new_with_scale(value as i128, MONEY_SCALE);
            Ok(ColumnData::Numeric(Some(value)))
        },
        _ => Err(Error::Protocol(invalid_length_text(len))),
    }
}

/// Law: every non-null value the decoder produces carries scale 4, whichever
/// valid length it was decoded from.
pub proof fn lemma_decoded_scale_is_four(
    r: Result<ColumnData, Error>,
    input: Seq<u8>,
    len: u8,
    n: Numeric,
)
    requires
        valid_len(len),
        decode_result_is(r, input, len),
        r == Ok::<ColumnData, Error>(ColumnData::Numeric(Some(n))),
    ensures
        n.scale == MONEY_SCALE,
{
}

/// Whether two decode results carry the same information: equal column
/// values, or the same error with the same message text.
pub open spec fn results_agree(r1: Result<ColumnData, Error>, r2: Result<ColumnData, Error>) -> bool {
    match (r1, r2) {
        (Ok(c1), Ok(c2)) => c1 == c2,
        (Err(Error::Protocol(m1)), Err(Error::Protocol(m2))) => m1@ == m2@,
        (Err(Error::UnexpectedEof), Err(Error::UnexpectedEof)) => true,
        _ => false,
    }
}

/// Law: decoding is deterministic. Two decode results obtained from sources
/// with the same unread bytes, under the same declared length, agree.
pub proof fn lemma_decode_deterministic(
    r1: Result<ColumnData, Error>,
    r2: Result<ColumnData, Error>,
    input: Seq<u8>,
    len: u8,
)
    requires
        decode_result_is(r1, input, len),
        decode_result_is(r2, input, len),
    ensures
        results_agree(r1, r2),
{
}

} // verus!
