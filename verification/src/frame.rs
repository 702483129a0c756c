//! The frame decoder: slicing a streamed payload into the enabled fields
//! and decoding each per its kind (one status byte, two-byte big-endian
//! pace counters, three-byte big-endian ECG samples), together with the
//! matching encoder and the round-trip law relating the two.

use vstd::prelude::*;

use crate::fields::{field_width, lemma_field_set_len, spec_field_width, total_width,
    valid_field_set};
use crate::registers::data::DataStatus;
use crate::registers::DataRegister;

verus! {

/// Decode the field at domain index `i` from its `spec_field_width(i)`
/// payload bytes.
pub open spec fn spec_decode_field(i: u8, bytes: Seq<u8>) -> DataRegister
    recommends
        i < 7,
        bytes.len() == spec_field_width(i),
{
    if i == 0 {
        DataRegister::DATA_STATUS(DataStatus(bytes[0]))
    } else if i == 1 {
        DataRegister::DATA_CH1_PACE((bytes[0] * 256 + bytes[1]) as u16)
    } else if i == 2 {
        DataRegister::DATA_CH2_PACE((bytes[0] * 256 + bytes[1]) as u16)
    } else if i == 3 {
        DataRegister::DATA_CH3_PACE((bytes[0] * 256 + bytes[1]) as u16)
    } else if i == 4 {
        DataRegister::DATA_CH1_ECG((bytes[0] * 65536 + bytes[1] * 256 + bytes[2]) as u32)
    } else if i == 5 {
        DataRegister::DATA_CH2_ECG((bytes[0] * 65536 + bytes[1] * 256 + bytes[2]) as u32)
    } else {
        DataRegister::DATA_CH3_ECG((bytes[0] * 65536 + bytes[1] * 256 + bytes[2]) as u32)
    }
}

/// Decode a whole payload against an enabled field set: each field, in
/// order, takes the next `spec_field_width` bytes of the payload.
pub open spec fn spec_decode_frame(fields: Seq<u8>, payload: Seq<u8>) -> Seq<DataRegister>
    recommends
        payload.len() == total_width(fields),
    decreases fields.len(),
{
    if fields.len() == 0 {
        Seq::empty()
    } else {
        let w = spec_field_width(fields.last()) as int;
        spec_decode_frame(fields.drop_last(), payload.take(payload.len() - w)).push(
            spec_decode_field(fields.last(), payload.skip(payload.len() - w)),
        )
    }
}

/// Relies on byteorder's `BigEndian::read_u16`: the big-endian 16-bit value
/// of the two bytes at `start`; it panics only on a slice shorter than two
/// bytes, which the precondition rules out.
#[verifier::external_body]
fn read_u16_be(bytes: &Vec<u8>, start: usize) -> (r: u16)
    requires
        start + 2 <= bytes@.len(),
    ensures
        r == bytes@[start as int] * 256 + bytes@[start as int + 1],
{
    <byteorder::BigEndian as byteorder::ByteOrder>::read_u16(&bytes[start..start + 2])
}

/// Relies on byteorder's `BigEndian::read_u24`: the big-endian 24-bit value
/// of the three bytes at `start`, stored in a `u32`; it panics only on a
/// slice shorter than three bytes, which the precondition rules out.
#[verifier::external_body]
fn read_u24_be(bytes: &Vec<u8>, start: usize) -> (r: u32)
    requires
        start + 3 <= bytes@.len(),
    ensures
        r == bytes@[start as int] * 65536 + bytes@[start as int + 1] * 256 + bytes@[start as int
            + 2],
{
    <byteorder::BigEndian as byteorder::ByteOrder>::read_u24(&bytes[start..start + 3])
}

/// Extending a field-set prefix by one keeps its total width within the
/// whole set's total width.
proof fn lemma_total_width_prefix(s: Seq<u8>, j: int)
    requires
        0 <= j <= s.len(),
    ensures
        total_width(s.subrange(0, j)) <= total_width(s),
    decreases s.len() - j,
{
    if j == s.len() {
        assert(s.subrange(0, j) =~= s);
    } else {
        lemma_total_width_prefix(s, j + 1);
        assert(s.subrange(0, j + 1).drop_last() =~= s.subrange(0, j));
    }
}

/// Decode the streamed fields found in `bytes` starting at byte `start`.
///
/// The bytes from `start` on must be exactly the payload of one streaming
/// exchange for `fields`; the decoded frame has one entry per enabled
/// field, in field-set order.
pub fn decode_frame_at(fields: &Vec<u8>, bytes: &Vec<u8>, start: usize) -> (frame: Vec<
    DataRegister,
>)
    requires
        valid_field_set(fields@),
        bytes@.len() == start + total_width(fields@),
    ensures
        frame@ == spec_decode_frame(fields@, bytes@.skip(start as int)),
        frame@.len() == fields@.len(),
{
    proof {
        lemma_field_set_len(fields@);
    }
    let end = bytes.len();
    let mut frame: Vec<DataRegister> = Vec::new();
    let mut cursor: usize = start;
    let mut k: usize = 0;
    while k < fields.len()
        invariant
            valid_field_set(fields@),
            bytes@.len() == start + total_width(fields@),
            end == bytes@.len(),
            k <= fields@.len(),
            start <= cursor <= bytes@.len(),
            cursor == start + total_width(fields@.subrange(0, k as int)),
            frame@ == spec_decode_frame(
                fields@.subrange(0, k as int),
                bytes@.subrange(start as int, cursor as int),
            ),
            frame@.len() == k,
        decreases fields@.len() - k,
    {
        let i = fields[k];
        let w = field_width(i);
        proof {
            assert(fields@.subrange(0, k + 1).drop_last() =~= fields@.subrange(0, k as int));
            assert(fields@.subrange(0, k + 1).last() == i);
            lemma_total_width_prefix(fields@, k + 1);
            assert(total_width(fields@.subrange(0, k + 1)) == total_width(
                fields@.subrange(0, k as int),
            ) + spec_field_width(i));
            assert(cursor + w <= bytes@.len());
        }
        let value = if i == 0 {
            DataRegister::DATA_STATUS(DataStatus(bytes[cursor]))
        } else if i == 1 {
            DataRegister::DATA_CH1_PACE(read_u16_be(bytes, cursor))
        } else if i == 2 {
            DataRegister::DATA_CH2_PACE(read_u16_be(bytes, cursor))
        } else if i == 3 {
            DataRegister::DATA_CH3_PACE(read_u16_be(bytes, cursor))
        } else if i == 4 {
            DataRegister::DATA_CH1_ECG(read_u24_be(bytes, cursor))
        } else if i == 5 {
            DataRegister::DATA_CH2_ECG(read_u24_be(bytes, cursor))
        } else {
            DataRegister::DATA_CH3_ECG(read_u24_be(bytes, cursor))
        };
        frame.push(value);
        proof {
            let p = bytes@.subrange(start as int, cursor + w);
            assert(p.take(p.len() - w) =~= bytes@.subrange(start as int, cursor as int));
            assert(p.skip(p.len() - w) =~= bytes@.subrange(cursor as int, cursor + w));
            assert(spec_decode_field(i, bytes@.subrange(cursor as int, cursor + w)) == value);
        }
        cursor = cursor + w;
        k = k + 1;
    }
    proof {
        assert(fields@.subrange(0, fields@.len() as int) =~= fields@);
        assert(bytes@.subrange(start as int, cursor as int) =~= bytes@.skip(start as int));
    }
    frame
}

/// The big-endian bytes of one field value, as wide as the field's kind.
pub open spec fn spec_encode_field(v: DataRegister) -> Seq<u8> {
    match v {
        DataRegister::DATA_STATUS(s) => seq![s.0],
        DataRegister::DATA_CH1_PACE(x) => seq![(x / 256) as u8, (x % 256) as u8],
        DataRegister::DATA_CH2_PACE(x) => seq![(x / 256) as u8, (x % 256) as u8],
        DataRegister::DATA_CH3_PACE(x) => seq![(x / 256) as u8, (x % 256) as u8],
        DataRegister::DATA_CH1_ECG(x) => seq![
            (x / 65536) as u8,
            ((x / 256) % 256) as u8,
            (x % 256) as u8,
        ],
        DataRegister::DATA_CH2_ECG(x) => seq![
            (x / 65536) as u8,
            ((x / 256) % 256) as u8,
            (x % 256) as u8,
        ],
        DataRegister::DATA_CH3_ECG(x) => seq![
            (x / 65536) as u8,
            ((x / 256) % 256) as u8,
            (x % 256) as u8,
        ],
    }
}

/// The concatenated big-endian bytes of a frame's values: the synthetic
/// payload that would stream back as exactly that frame.
pub open spec fn spec_encode_frame(fr: Seq<DataRegister>) -> Seq<u8>
    decreases fr.len(),
{
    if fr.len() == 0 {
        Seq::empty()
    } else {
        spec_encode_frame(fr.drop_last()) + spec_encode_field(fr.last())
    }
}

/// `v` is a value of the field at domain index `i`, within the kind's
/// range (an ECG sample carries at most 24 bits).
pub open spec fn field_has_kind(i: u8, v: DataRegister) -> bool {
    match v {
        DataRegister::DATA_STATUS(_) => i == 0,
        DataRegister::DATA_CH1_PACE(_) => i == 1,
        DataRegister::DATA_CH2_PACE(_) => i == 2,
        DataRegister::DATA_CH3_PACE(_) => i == 3,
        DataRegister::DATA_CH1_ECG(x) => i == 4 && x < 0x1000000,
        DataRegister::DATA_CH2_ECG(x) => i == 5 && x < 0x1000000,
        DataRegister::DATA_CH3_ECG(x) => i == 6 && x < 0x1000000,
    }
}

/// `fr` is a frame shaped like the enabled field set `fields`: one value
/// per field, each of its field's kind.
pub open spec fn frame_matches(fields: Seq<u8>, fr: Seq<DataRegister>) -> bool {
    &&& fr.len() == fields.len()
    &&& forall|k: int| 0 <= k < fr.len() ==> field_has_kind(fields[k], fr[k])
}

proof fn lemma_field_round_trip(i: u8, v: DataRegister)
    requires
        field_has_kind(i, v),
    ensures
        spec_encode_field(v).len() == spec_field_width(i),
        spec_decode_field(i, spec_encode_field(v)) == v,
{
    match v {
        DataRegister::DATA_STATUS(_) => {},
        DataRegister::DATA_CH1_PACE(x) => {
            assert((x / 256) * 256 + (x % 256) == x) by (bit_vector);
        },
        DataRegister::DATA_CH2_PACE(x) => {
            assert((x / 256) * 256 + (x % 256) == x) by (bit_vector);
        },
        DataRegister::DATA_CH3_PACE(x) => {
            assert((x / 256) * 256 + (x % 256) == x) by (bit_vector);
        },
        DataRegister::DATA_CH1_ECG(x) => {
            assert(x < 0x1000000 ==> (x / 65536) * 65536 + ((x / 256) % 256) * 256 + (x % 256)
                == x) by (bit_vector);
        },
        DataRegister::DATA_CH2_ECG(x) => {
            assert(x < 0x1000000 ==> (x / 65536) * 65536 + ((x / 256) % 256) * 256 + (x % 256)
                == x) by (bit_vector);
        },
        DataRegister::DATA_CH3_ECG(x) => {
            assert(x < 0x1000000 ==> (x / 65536) * 65536 + ((x / 256) % 256) * 256 + (x % 256)
                == x) by (bit_vector);
        },
    }
}

/// Round trip: encoding a frame shaped like an enabled field set yields a
/// payload of exactly the set's total width, and decoding that payload
/// against the same set reproduces the frame.
pub proof fn lemma_round_trip(fields: Seq<u8>, fr: Seq<DataRegister>)
    requires
        frame_matches(fields, fr),
    ensures
        spec_encode_frame(fr).len() == total_width(fields),
        spec_decode_frame(fields, spec_encode_frame(fr)) == fr,
    decreases fields.len(),
{
    if fields.len() == 0 {
        assert(spec_decode_frame(fields, spec_encode_frame(fr)) =~= fr);
    } else {
        assert(frame_matches(fields.drop_last(), fr.drop_last()));
        lemma_round_trip(fields.drop_last(), fr.drop_last());
        assert(field_has_kind(fields.last(), fr.last()));
        lemma_field_round_trip(fields.last(), fr.last());
        let e = spec_encode_frame(fr);
        let w = spec_field_width(fields.last()) as int;
        assert(e.take(e.len() - w) =~= spec_encode_frame(fr.drop_last()));
        assert(e.skip(e.len() - w) =~= spec_encode_field(fr.last()));
        assert(spec_decode_frame(fields, e) =~= fr);
    }
}

/// Build the synthetic payload that decodes back to `frame`: the
/// concatenation, for each value, of its big-endian bytes.
pub fn encode_frame(frame: &Vec<DataRegister>) -> (payload: Vec<u8>)
    ensures
        payload@ == spec_encode_frame(frame@),
{
    let mut payload: Vec<u8> = Vec::new();
    let mut k: usize = 0;
    while k < frame.len()
        invariant
            k <= frame@.len(),
            payload@ == spec_encode_frame(frame@.subrange(0, k as int)),
        decreases frame@.len() - k,
    {
        proof {
            assert(frame@.subrange(0, k + 1).drop_last() =~= frame@.subrange(0, k as int));
            assert(frame@.subrange(0, k + 1).last() == frame@[k as int]);
        }
        match frame[k] {
            DataRegister::DATA_STATUS(s) => {
                payload.push(s.0);
            },
            DataRegister::DATA_CH1_PACE(x) => {
                payload.push((x / 256) as u8);
                payload.push((x % 256) as u8);
            },
            DataRegister::DATA_CH2_PACE(x) => {
                payload.push((x / 256) as u8);
                payload.push((x % 256) as u8);
            },
            DataRegister::DATA_CH3_PACE(x) => {
                payload.push((x / 256) as u8);
                payload.push((x % 256) as u8);
            },
            DataRegister::DATA_CH1_ECG(x) => {
                payload.push((x / 65536) as u8);
                payload.push(((x / 256) % 256) as u8);
                payload.push((x % 256) as u8);
            },
            DataRegister::DATA_CH2_ECG(x) => {
                payload.push((x / 65536) as u8);
                payload.push(((x / 256) % 256) as u8);
                payload.push((x % 256) as u8);
            },
            DataRegister::DATA_CH3_ECG(x) => {
                payload.push((x / 65536) as u8);
                payload.push(((x / 256) % 256) as u8);
                payload.push((x % 256) as u8);
            },
        }
        proof {
            assert(payload@ =~= spec_encode_frame(frame@.subrange(0, k + 1)));
        }
        k = k + 1;
    }
    proof {
        assert(frame@.subrange(0, frame@.len() as int) =~= frame@);
    }
    payload
}

/// Decode one payload against an enabled field set. The payload must be
/// exactly as long as the set's total width.
pub fn decode_frame(fields: &Vec<u8>, payload: &Vec<u8>) -> (frame: Vec<DataRegister>)
    requires
        valid_field_set(fields@),
        payload@.len() == total_width(fields@),
    ensures
        frame@ == spec_decode_frame(fields@, payload@),
        frame@.len() == fields@.len(),
{
    let frame = decode_frame_at(fields, payload, 0);
    proof {
        assert(payload@.skip(0) =~= payload@);
    }
    frame
}

} // verus!
