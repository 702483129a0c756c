//! The field domain of the streaming ("loop read-back") mode, and the two
//! pure computations derived from a channel-configuration byte: the enabled
//! field set and the transfer-buffer size.
//!
//! The device streams up to seven data fields in one bus exchange. Which
//! fields appear is selected by the low seven bits of the channel
//! configuration register; the order and the byte width of each field are
//! fixed by the device protocol. A field is identified here by its bit
//! index, `0` through `6`.

use vstd::prelude::*;

verus! {

/// True when bit `i` of `b` is set.
pub open spec fn bit_set(b: u8, i: u8) -> bool {
    (b >> i) & 1 == 1
}

/// Byte width of the field at domain index `i`: one status byte, three
/// two-byte pace channels, three three-byte ECG channels.
pub open spec fn spec_field_width(i: u8) -> nat {
    if i == 0 {
        1
    } else if i <= 3 {
        2
    } else {
        3
    }
}

/// Byte width of the field at domain index `i`.
pub fn field_width(i: u8) -> (w: usize)
    requires
        i < 7,
    ensures
        w == spec_field_width(i),
{
    if i == 0 {
        1
    } else if i <= 3 {
        2
    } else {
        3
    }
}

/// The indices below `i` whose bit is set in `config`, in ascending order.
pub open spec fn enabled_upto(config: u8, i: int) -> Seq<u8>
    decreases i,
{
    if i <= 0 {
        Seq::empty()
    } else if bit_set(config, (i - 1) as u8) {
        enabled_upto(config, i - 1).push((i - 1) as u8)
    } else {
        enabled_upto(config, i - 1)
    }
}

/// The enabled field set of `config`: the domain indices whose bit is set,
/// in ascending order.
pub open spec fn enabled_seq(config: u8) -> Seq<u8> {
    enabled_upto(config, 7)
}

/// A well-formed enabled field set: domain indices in strictly ascending
/// order.
pub open spec fn valid_field_set(s: Seq<u8>) -> bool {
    &&& forall|k: int| 0 <= k < s.len() ==> s[k] < 7
    &&& forall|k1: int, k2: int| 0 <= k1 < k2 < s.len() ==> s[k1] < s[k2]
}

/// Total byte width of the fields of `s`.
pub open spec fn total_width(s: Seq<u8>) -> nat
    decreases s.len(),
{
    if s.len() == 0 {
        0
    } else {
        total_width(s.drop_last()) + spec_field_width(s.last())
    }
}

/// Number of set bits of `c` below index `i`.
pub open spec fn pop_count_upto(c: u8, i: int) -> nat
    decreases i,
{
    if i <= 0 {
        0
    } else {
        pop_count_upto(c, i - 1) + if bit_set(c, (i - 1) as u8) {
            1nat
        } else {
            0nat
        }
    }
}

/// Number of set bits of `c`.
pub open spec fn pop_count(c: u8) -> nat {
    pop_count_upto(c, 8)
}

/// Derive the enabled field set from the channel-configuration byte.
///
/// Bit 7 of the register is unused and must read back as zero; a set bit 7
/// indicates a device/protocol inconsistency and yields `None` rather than
/// a silently mis-shaped field set.
pub fn enabled_fields(config: u8) -> (r: Option<Vec<u8>>)
    ensures
        config < 128 ==> (r matches Some(fields) && fields@ == enabled_seq(config)),
        config >= 128 ==> r is None,
{
    if config >= 128 {
        return None;
    }
    let mut fields: Vec<u8> = Vec::new();
    let mut i: u8 = 0;
    while i < 7
        invariant
            i <= 7,
            fields@ == enabled_upto(config, i as int),
        decreases 7 - i,
    {
        if (config >> i) & 1 == 1 {
            fields.push(i);
        }
        i = i + 1;
    }
    Some(fields)
}

/// Every entry of a well-formed field set is at least as large as its
/// position, because the entries ascend strictly.
proof fn lemma_field_set_index_lower(s: Seq<u8>, k: int)
    requires
        valid_field_set(s),
        0 <= k < s.len(),
    ensures
        s[k] >= k,
    decreases k,
{
    if k > 0 {
        lemma_field_set_index_lower(s, k - 1);
    }
}

/// A well-formed field set has at most seven entries.
pub proof fn lemma_field_set_len(s: Seq<u8>)
    requires
        valid_field_set(s),
    ensures
        s.len() <= 7,
{
    if s.len() > 7 {
        lemma_field_set_index_lower(s, 7);
    }
}

proof fn lemma_enabled_upto_props(c: u8, i: int)
    requires
        0 <= i <= 8,
    ensures
        enabled_upto(c, i).len() == pop_count_upto(c, i),
        forall|k: int| 0 <= k < enabled_upto(c, i).len() ==> enabled_upto(c, i)[k] < i,
        forall|j: u8| j < i ==> (bit_set(c, j) <==> enabled_upto(c, i).contains(j)),
        forall|k1: int, k2: int|
            0 <= k1 < k2 < enabled_upto(c, i).len() ==> enabled_upto(c, i)[k1] < enabled_upto(
                c,
                i,
            )[k2],
    decreases i,
{
    if i > 0 {
        lemma_enabled_upto_props(c, i - 1);
        let prev = enabled_upto(c, i - 1);
        let cur = enabled_upto(c, i);
        if bit_set(c, (i - 1) as u8) {
            assert(cur[prev.len() as int] == (i - 1) as u8);
            assert forall|j: u8| j < i && bit_set(c, j) implies cur.contains(j) by {
                if j < i - 1 {
                    let k = choose|k: int| 0 <= k < prev.len() && prev[k] == j;
                    assert(cur[k] == j);
                } else {
                    assert(cur[prev.len() as int] == j);
                }
            }
            assert forall|j: u8| j < i && cur.contains(j) implies bit_set(c, j) by {
                let k = choose|k: int| 0 <= k < cur.len() && cur[k] == j;
                if k < prev.len() {
                    assert(prev[k] == j);
                }
            }
        } else {
            assert forall|j: u8| j < i && bit_set(c, j) implies cur.contains(j) by {
                assert(j != i - 1);
                let k = choose|k: int| 0 <= k < prev.len() && prev[k] == j;
                assert(cur[k] == j);
            }
            assert forall|j: u8| j < i && cur.contains(j) implies bit_set(c, j) by {
                let k = choose|k: int| 0 <= k < cur.len() && cur[k] == j;
                assert(prev[k] == j);
            }
        }
    }
}

/// The enabled field set of a configuration byte whose unused high bit is
/// clear has exactly one entry per set bit: its length is the population
/// count of the byte, its members are exactly the set bit positions, and
/// they appear in ascending order.
pub proof fn lemma_enabled_fields(c: u8)
    requires
        c < 128,
    ensures
        enabled_seq(c).len() == pop_count(c),
        forall|j: u8| j < 7 ==> (bit_set(c, j) <==> enabled_seq(c).contains(j)),
        valid_field_set(enabled_seq(c)),
{
    lemma_enabled_upto_props(c, 7);
    assert(!bit_set(c, 7)) by (bit_vector)
        requires
            c < 128,
    ;
}

/// Required transfer-buffer length for the enabled field set `fields`: one
/// leading command byte plus the total width of the fields.
pub fn buffer_size(fields: &Vec<u8>) -> (n: usize)
    requires
        valid_field_set(fields@),
    ensures
        n == 1 + total_width(fields@),
{
    proof {
        lemma_field_set_len(fields@);
    }
    let mut n: usize = 1;
    let mut k: usize = 0;
    while k < fields.len()
        invariant
            valid_field_set(fields@),
            fields@.len() <= 7,
            k <= fields@.len(),
            n == 1 + total_width(fields@.subrange(0, k as int)),
            n <= 1 + 3 * k,
        decreases fields@.len() - k,
    {
        let w = field_width(fields[k]);
        proof {
            assert(fields@.subrange(0, k + 1).drop_last() =~= fields@.subrange(0, k as int));
        }
        n = n + w;
        k = k + 1;
    }
    proof {
        assert(fields@.subrange(0, fields@.len() as int) =~= fields@);
    }
    n
}

/// Allocate a transfer buffer for the enabled field set `fields`: one
/// command-byte slot plus the total width of the fields, filled with the
/// dummy byte `0xFF` that the exchange clocks out.
pub fn new_transfer_buffer(fields: &Vec<u8>) -> (buffer: Vec<u8>)
    requires
        valid_field_set(fields@),
    ensures
        buffer@.len() == 1 + total_width(fields@),
{
    let len = buffer_size(fields);
    let mut buffer: Vec<u8> = Vec::new();
    let mut k: usize = 0;
    while k < len
        invariant
            k <= len,
            buffer@.len() == k,
        decreases len - k,
    {
        buffer.push(0xff);
        k = k + 1;
    }
    buffer
}

} // verus!
