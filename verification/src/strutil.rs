//! String helpers proved from the UTF-8 encoding: equality of string
//! slices, and equality of byte slices, stated over their views.

use vstd::prelude::*;
use vstd::slice::slice_index_get;
use vstd::string::StringSliceAdditionalSpecFns;
use vstd::utf8::encode_utf8_decode_utf8;

verus! {

/// Compares two byte slices for element-wise equality.
pub fn bytes_eq(a: &[u8], b: &[u8]) -> (r: bool)
    ensures
        r == (a@ == b@),
{
    if a.len() != b.len() {
        assert(a@ != b@) by {
            assert(a@.len() != b@.len());
        }
        return false;
    }
    let mut i: usize = 0;
    while i < a.len()
        invariant
            0 <= i <= a.len(),
            a@.len() == b@.len(),
            forall|j: int| 0 <= j < i ==> a@[j] == b@[j],
        decreases a.len() - i,
    {
        if *slice_index_get(a, i) != *slice_index_get(b, i) {
            return false;
        }
        i = i + 1;
    }
    assert(a@ =~= b@);
    true
}

/// The decimal digit character for a value below ten.
pub open spec fn spec_digit_char(d: u32) -> char
    recommends
        d < 10,
{
    if d == 0 {
        '0'
    } else if d == 1 {
        '1'
    } else if d == 2 {
        '2'
    } else if d == 3 {
        '3'
    } else if d == 4 {
        '4'
    } else if d == 5 {
        '5'
    } else if d == 6 {
        '6'
    } else if d == 7 {
        '7'
    } else if d == 8 {
        '8'
    } else {
        '9'
    }
}

/// The decimal representation of an unsigned value, most significant
/// digit first.
pub open spec fn spec_u32_decimal(n: u32) -> Seq<char>
    decreases n,
{
    if n < 10 {
        seq![spec_digit_char(n)]
    } else {
        spec_u32_decimal(n / 10) + seq![spec_digit_char(n % 10)]
    }
}

/// The decimal representation of a signed value: a minus sign before
/// the magnitude when negative.
pub open spec fn spec_i32_decimal(n: i32) -> Seq<char> {
    if n >= 0 {
        spec_u32_decimal(n as u32)
    } else {
        seq!['-'] + spec_u32_decimal((-(n as int)) as u32)
    }
}

fn digit_str(d: u32) -> (r: &'static str)
    requires
        d < 10,
    ensures
        r@ == seq![spec_digit_char(d)],
{
    proof {
        reveal_strlit("0");
        reveal_strlit("1");
        reveal_strlit("2");
        reveal_strlit("3");
        reveal_strlit("4");
        reveal_strlit("5");
        reveal_strlit("6");
        reveal_strlit("7");
        reveal_strlit("8");
        reveal_strlit("9");
    }
    match d {
        0 => "0",
        1 => "1",
        2 => "2",
        3 => "3",
        4 => "4",
        5 => "5",
        6 => "6",
        7 => "7",
        8 => "8",
        _ => "9",
    }
}

/// Renders an unsigned value in decimal.
pub fn u32_to_string(n: u32) -> (r: String)
    ensures
        r@ == spec_u32_decimal(n),
    decreases n,
{
    if n < 10 {
        String::from_str(digit_str(n))
    } else {
        let high = u32_to_string(n / 10);
        high.concat(digit_str(n % 10))
    }
}

/// Renders a signed value in decimal.
pub fn i32_to_string(n: i32) -> (r: String)
    ensures
        r@ == spec_i32_decimal(n),
{
    if n >= 0 {
        u32_to_string(n as u32)
    } else {
        let magnitude: i64 = -(n as i64);
        let s = String::from_str("-");
        proof {
            reveal_strlit("-");
        }
        s.concat(u32_to_string(magnitude as u32).as_str())
    }
}

/// Compares two string slices for equality of their character sequences.
pub fn str_eq(a: &str, b: &str) -> (r: bool)
    ensures
        r == (a@ == b@),
{
    let eq = bytes_eq(a.as_bytes(), b.as_bytes());
    proof {
        if eq {
            encode_utf8_decode_utf8(a@);
            encode_utf8_decode_utf8(b@);
        }
    }
    eq
}

/// Whether one byte sequence occurs inside another.
pub open spec fn spec_contains_seq(h: Seq<u8>, n: Seq<u8>) -> bool {
    exists|i: int| 0 <= i <= h.len() - n.len() && #[trigger] h.subrange(i, i + n.len()) == n
}

/// Searches one byte slice inside another.
pub fn bytes_contains(h: &[u8], n: &[u8]) -> (r: bool)
    ensures
        r == spec_contains_seq(h@, n@),
{
    if n.len() > h.len() {
        return false;
    }
    let bound = h.len() - n.len();
    let mut i: usize = 0;
    while i < bound
        invariant
            n@.len() <= h@.len(),
            h@.len() <= usize::MAX,
            bound == h@.len() - n@.len(),
            0 <= i <= bound,
            forall|j: int| 0 <= j < i ==> #[trigger] h@.subrange(j, j + n@.len()) != n@,
        decreases bound - i,
    {
        let window = vstd::slice::slice_subrange(h, i, i + n.len());
        if bytes_eq(window, n) {
            return true;
        }
        i = i + 1;
    }
    let window = vstd::slice::slice_subrange(h, bound, bound + n.len());
    if bytes_eq(window, n) {
        return true;
    }
    false
}


} // verus!
