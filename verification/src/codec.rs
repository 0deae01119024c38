//! The byte encodings of the typed fields the store holds: little-
//! endian integers, two's-complement signed values, one-byte
//! booleans, UTF-8 strings, and packed lists of 32-bit values. Each
//! decoder inverts its encoder, and the proofs say so.

use vstd::bytes::{
    lemma_auto_spec_u32_to_from_le_bytes, spec_u32_from_le_bytes, spec_u32_to_le_bytes,
    u32_from_le_bytes, u32_to_le_bytes,
};
use vstd::prelude::*;
use vstd::slice::slice_subrange;

verus! {

/// The unsigned value with the same 32 bits as a signed one.
pub open spec fn spec_i32_bits(x: i32) -> u32 {
    if x >= 0 {
        x as u32
    } else {
        (x + 0x1_0000_0000) as u32
    }
}

/// The signed value with the same 32 bits as an unsigned one.
pub open spec fn spec_u32_unbits(v: u32) -> i32 {
    if v < 0x8000_0000 {
        v as i32
    } else {
        (v - 0x1_0000_0000) as i32
    }
}

/// The two's-complement view of a signed value round-trips.
pub proof fn lemma_i32_bits_round_trip(x: i32, v: u32)
    ensures
        spec_u32_unbits(spec_i32_bits(x)) == x,
        spec_i32_bits(spec_u32_unbits(v)) == v,
{
}

/// The unsigned value with the same 32 bits as a signed one.
pub fn i32_bits(x: i32) -> (r: u32)
    ensures
        r == spec_i32_bits(x),
{
    if x >= 0 {
        x as u32
    } else {
        ((x as i64) + 0x1_0000_0000i64) as u32
    }
}

/// The signed value with the same 32 bits as an unsigned one.
pub fn u32_unbits(v: u32) -> (r: i32)
    ensures
        r == spec_u32_unbits(v),
{
    if v < 0x8000_0000 {
        v as i32
    } else {
        ((v as i64) - 0x1_0000_0000i64) as i32
    }
}

/// The byte a boolean encodes to.
pub open spec fn spec_bool_bytes(b: bool) -> Seq<u8> {
    if b {
        seq![1u8]
    } else {
        seq![0u8]
    }
}

/// The boolean, if any, that bytes decode to: a single byte holding
/// zero or one.
pub open spec fn spec_bool_of_bytes(s: Seq<u8>) -> Option<bool> {
    if s.len() == 1 && s[0] == 1u8 {
        Some(true)
    } else if s.len() == 1 && s[0] == 0u8 {
        Some(false)
    } else {
        None
    }
}

/// Every boolean round-trips through its byte encoding.
pub proof fn lemma_bool_bytes_round_trip(b: bool)
    ensures
        spec_bool_of_bytes(spec_bool_bytes(b)) == Some(b),
{
}

/// The packed little-endian encoding of a list of 32-bit values.
pub open spec fn spec_u32s_bytes(s: Seq<u32>) -> Seq<u8>
    decreases s.len(),
{
    if s.len() == 0 {
        Seq::empty()
    } else {
        spec_u32s_bytes(s.drop_last()) + spec_u32_to_le_bytes(s.last())
    }
}

/// The list of 32-bit values, if any, that bytes decode to: the
/// length must be a multiple of four.
pub open spec fn spec_u32s_of_bytes(b: Seq<u8>) -> Option<Seq<u32>>
    decreases b.len(),
{
    if b.len() == 0 {
        Some(Seq::empty())
    } else if b.len() < 4 {
        None
    } else {
        match spec_u32s_of_bytes(b.take(b.len() - 4)) {
            Some(p) => Some(p.push(spec_u32_from_le_bytes(b.skip(b.len() - 4)))),
            None => None,
        }
    }
}

/// The packed encoding of a list is four bytes per element.
pub proof fn lemma_u32s_bytes_len(s: Seq<u32>)
    ensures
        spec_u32s_bytes(s).len() == 4 * s.len(),
    decreases s.len(),
{
    lemma_auto_spec_u32_to_from_le_bytes();
    if s.len() > 0 {
        lemma_u32s_bytes_len(s.drop_last());
    }
}

/// Every list of 32-bit values round-trips through its packed
/// encoding.
pub proof fn lemma_u32s_bytes_round_trip(s: Seq<u32>)
    ensures
        spec_u32s_of_bytes(spec_u32s_bytes(s)) == Some(s),
    decreases s.len(),
{
    lemma_auto_spec_u32_to_from_le_bytes();
    if s.len() > 0 {
        let b = spec_u32s_bytes(s);
        lemma_u32s_bytes_len(s);
        lemma_u32s_bytes_len(s.drop_last());
        assert(b.take(b.len() - 4) =~= spec_u32s_bytes(s.drop_last()));
        assert(b.skip(b.len() - 4) =~= spec_u32_to_le_bytes(s.last()));
        lemma_u32s_bytes_round_trip(s.drop_last());
        assert(s.drop_last().push(s.last()) =~= s);
    }
}

/// Packs a list of 32-bit values into bytes.
pub fn u32s_to_bytes(values: &Vec<u32>) -> (r: Vec<u8>)
    ensures
        r@ == spec_u32s_bytes(values@),
{
    let mut out: Vec<u8> = Vec::new();
    let mut i: usize = 0;
    while i < values.len()
        invariant
            0 <= i <= values@.len(),
            out@ == spec_u32s_bytes(values@.take(i as int)),
        decreases values@.len() - i,
    {
        let ghost prefix = values@.take(i as int);
        let mut chunk = u32_to_le_bytes(values[i]);
        out.append(&mut chunk);
        proof {
            assert(values@.take(i + 1).drop_last() =~= prefix);
            assert(values@.take(i + 1).last() == values@[i as int]);
        }
        i = i + 1;
    }
    proof {
        assert(values@.take(values@.len() as int) =~= values@);
    }
    out
}

/// Unpacks a list of 32-bit values from bytes; bytes whose length is
/// no multiple of four decode to nothing.
pub fn u32s_from_bytes(bytes: &Vec<u8>) -> (r: Option<Vec<u32>>)
    ensures
        r matches Some(v) ==> spec_u32s_of_bytes(bytes@) == Some(v@),
        r is None <==> spec_u32s_of_bytes(bytes@) is None,
{
    if bytes.len() % 4 != 0 {
        proof {
            lemma_u32s_undecodable(bytes@);
        }
        return None;
    }
    let len = bytes.len();
    let n = len / 4;
    let mut out: Vec<u32> = Vec::new();
    let mut i: usize = 0;
    while i < n
        invariant
            0 <= i <= n,
            len == bytes@.len(),
            bytes@.len() % 4 == 0,
            4 * (n as int) == len as int,
            spec_u32s_of_bytes(bytes@.take(4 * i)) == Some(out@),
            out@.len() == i,
        decreases n - i,
    {
        let ghost prefix = bytes@.take(4 * i as int);
        let chunk = slice_subrange(bytes.as_slice(), 4 * i, 4 * i + 4);
        let v = u32_from_le_bytes(chunk);
        out.push(v);
        proof {
            let t = bytes@.take(4 * (i + 1) as int);
            assert(t.take(t.len() - 4) =~= prefix);
            assert(t.skip(t.len() - 4) =~= bytes@.subrange(4 * i as int, 4 * i as int + 4));
        }
        i = i + 1;
    }
    proof {
        assert(bytes@.take(4 * ((bytes@.len() / 4) as int)) =~= bytes@);
    }
    Some(out)
}

/// Bytes whose length is no multiple of four decode to no list.
proof fn lemma_u32s_undecodable(b: Seq<u8>)
    requires
        b.len() % 4 != 0,
    ensures
        spec_u32s_of_bytes(b) is None,
    decreases b.len(),
{
    if b.len() >= 4 {
        lemma_u32s_undecodable(b.take(b.len() - 4));
    }
}

} // verus!
