//! Typed fields over a store tree. A field is one key — a single
//! tag byte — holding the byte encoding of a typed value; the spec
//! functions here say what typed value a tree's model holds under a
//! tag, and the accessors are proved against them.

use vstd::bytes::{
    spec_u32_from_le_bytes, spec_u32_to_le_bytes, spec_u64_from_le_bytes, spec_u64_to_le_bytes,
    u32_from_le_bytes, u32_to_le_bytes, u64_from_le_bytes, u64_to_le_bytes,
};
use vstd::prelude::*;
use vstd::utf8::{decode_utf8, valid_utf8};

use crate::codec::{
    i32_bits, spec_bool_of_bytes, spec_i32_bits, spec_u32_unbits, spec_u32s_bytes,
    spec_u32s_of_bytes, u32_unbits, u32s_from_bytes, u32s_to_bytes,
};
use crate::errors::BpfmanError;
use crate::store::{sled_get, sled_insert, tree_model, tree_name_of};

verus! {

/// The raw bytes a tree holds under a tag, if any.
pub open spec fn field_bytes(m: Map<Seq<u8>, Seq<u8>>, tag: u8) -> Option<Seq<u8>> {
    if m.contains_key(seq![tag]) {
        Some(m[seq![tag]])
    } else {
        None
    }
}

/// The 32-bit value a tree holds under a tag, if any.
pub open spec fn field_u32(m: Map<Seq<u8>, Seq<u8>>, tag: u8) -> Option<u32> {
    match field_bytes(m, tag) {
        Some(b) => if b.len() == 4 {
            Some(spec_u32_from_le_bytes(b))
        } else {
            None
        },
        None => None,
    }
}

/// The signed 32-bit value a tree holds under a tag, if any.
pub open spec fn field_i32(m: Map<Seq<u8>, Seq<u8>>, tag: u8) -> Option<i32> {
    match field_u32(m, tag) {
        Some(v) => Some(spec_u32_unbits(v)),
        None => None,
    }
}

/// The 64-bit value a tree holds under a tag, if any.
pub open spec fn field_u64(m: Map<Seq<u8>, Seq<u8>>, tag: u8) -> Option<u64> {
    match field_bytes(m, tag) {
        Some(b) => if b.len() == 8 {
            Some(spec_u64_from_le_bytes(b))
        } else {
            None
        },
        None => None,
    }
}

/// The boolean a tree holds under a tag, if any.
pub open spec fn field_bool(m: Map<Seq<u8>, Seq<u8>>, tag: u8) -> Option<bool> {
    match field_bytes(m, tag) {
        Some(b) => spec_bool_of_bytes(b),
        None => None,
    }
}

/// The string a tree holds under a tag, if any.
pub open spec fn field_str(m: Map<Seq<u8>, Seq<u8>>, tag: u8) -> Option<Seq<char>> {
    match field_bytes(m, tag) {
        Some(b) => if valid_utf8(b) {
            Some(decode_utf8(b))
        } else {
            None
        },
        None => None,
    }
}

/// The list of 32-bit values a tree holds under a tag, if any.
pub open spec fn field_u32s(m: Map<Seq<u8>, Seq<u8>>, tag: u8) -> Option<Seq<u32>> {
    match field_bytes(m, tag) {
        Some(b) => spec_u32s_of_bytes(b),
        None => None,
    }
}

/// Whether one tagged field stands unchanged between two tree
/// states: present in one exactly when present in the other, with
/// the same bytes.
pub open spec fn tag_kept(m0: Map<Seq<u8>, Seq<u8>>, m1: Map<Seq<u8>, Seq<u8>>, tag: u8) -> bool {
    &&& (m1.contains_key(seq![tag]) <==> m0.contains_key(seq![tag]))
    &&& (m0.contains_key(seq![tag]) ==> m1[seq![tag]] == m0[seq![tag]])
}

/// Whether a mutation either applied or left the tree as it was:
/// what a failed store write leaves behind.
pub open spec fn wrote_or_kept(
    m0: Map<Seq<u8>, Seq<u8>>,
    m1: Map<Seq<u8>, Seq<u8>>,
    k: Seq<u8>,
    v: Seq<u8>,
) -> bool {
    m1 == m0 || m1 == m0.insert(k, v)
}

/// Relies on String::from_utf8: returns the string whose bytes are
/// the input, exactly when they are valid UTF-8.
#[verifier::external_body]
pub(crate) fn string_from_utf8(bytes: Vec<u8>) -> (r: Option<String>)
    ensures
        r is Some <==> valid_utf8(bytes@),
        r matches Some(s) ==> s@ == decode_utf8(bytes@),
{
    String::from_utf8(bytes).ok()
}

/// The one-byte key of a tagged field.
fn tag_key(tag: u8) -> (r: Vec<u8>)
    ensures
        r@ == seq![tag],
{
    let mut k: Vec<u8> = Vec::new();
    k.push(tag);
    proof {
        assert(k@ =~= seq![tag]);
    }
    k
}

fn db_err(cause: String) -> (r: BpfmanError)
    ensures
        r is DatabaseError,
{
    BpfmanError::DatabaseError(String::from_str("store access"), cause)
}

/// Stores raw bytes under a tag.
pub(crate) fn put_bytes(tree: &mut sled::Tree, tag: u8, value: &[u8]) -> (r: Result<
    (),
    BpfmanError,
>)
    ensures
        tree_name_of(*final(tree)) == tree_name_of(*old(tree)),
        r is Ok ==> tree_model(*final(tree)) == tree_model(*old(tree)).insert(seq![tag], value@),
        r is Err ==> wrote_or_kept(
            tree_model(*old(tree)),
            tree_model(*final(tree)),
            seq![tag],
            value@,
        ),
        r matches Err(e) ==> e is DatabaseError,
{
    let key = tag_key(tag);
    match sled_insert(tree, key.as_slice(), value) {
        Ok(_) => Ok(()),
        Err(e) => Err(db_err(e)),
    }
}

/// Reads the raw bytes a tag must hold; a missing field is a store
/// error.
pub(crate) fn get_bytes(tree: &sled::Tree, tag: u8) -> (r: Result<Vec<u8>, BpfmanError>)
    ensures
        r matches Ok(v) ==> field_bytes(tree_model(*tree), tag) == Some(v@),
        field_bytes(tree_model(*tree), tag) is None ==> r is Err,
        r matches Err(e) ==> e is DatabaseError,
{
    let key = tag_key(tag);
    match sled_get(tree, key.as_slice()) {
        Ok(Some(v)) => Ok(v),
        Ok(None) => Err(db_err(String::from_str("missing field"))),
        Err(e) => Err(db_err(e)),
    }
}

/// Reads the raw bytes a tag may hold.
pub(crate) fn get_bytes_opt(tree: &sled::Tree, tag: u8) -> (r: Result<
    Option<Vec<u8>>,
    BpfmanError,
>)
    ensures
        r matches Ok(o) ==> ((o is Some <==> field_bytes(tree_model(*tree), tag) is Some) && (
        o matches Some(v) ==> field_bytes(tree_model(*tree), tag) == Some(v@))),
        r matches Err(e) ==> e is DatabaseError,
{
    let key = tag_key(tag);
    match sled_get(tree, key.as_slice()) {
        Ok(o) => Ok(o),
        Err(e) => Err(db_err(e)),
    }
}

/// Stores a 32-bit value under a tag.
pub(crate) fn put_u32(tree: &mut sled::Tree, tag: u8, v: u32) -> (r: Result<(), BpfmanError>)
    ensures
        tree_name_of(*final(tree)) == tree_name_of(*old(tree)),
        r is Ok ==> tree_model(*final(tree)) == tree_model(*old(tree)).insert(
            seq![tag],
            spec_u32_to_le_bytes(v),
        ),
        r is Ok ==> field_u32(tree_model(*final(tree)), tag) == Some(v),
        r is Err ==> wrote_or_kept(
            tree_model(*old(tree)),
            tree_model(*final(tree)),
            seq![tag],
            spec_u32_to_le_bytes(v),
        ),
        r matches Err(e) ==> e is DatabaseError,
{
    proof {
        vstd::bytes::lemma_auto_spec_u32_to_from_le_bytes();
    }
    let bytes = u32_to_le_bytes(v);
    put_bytes(tree, tag, bytes.as_slice())
}

/// Reads the 32-bit value a tag must hold.
pub(crate) fn get_u32(tree: &sled::Tree, tag: u8) -> (r: Result<u32, BpfmanError>)
    ensures
        r matches Ok(v) ==> field_u32(tree_model(*tree), tag) == Some(v),
        field_u32(tree_model(*tree), tag) is None ==> r is Err,
        r matches Err(e) ==> e is DatabaseError,
{
    let bytes = get_bytes(tree, tag)?;
    if bytes.len() != 4 {
        return Err(db_err(String::from_str("malformed 32-bit field")));
    }
    Ok(u32_from_le_bytes(bytes.as_slice()))
}

/// Reads the 32-bit value a tag may hold.
pub(crate) fn get_u32_opt(tree: &sled::Tree, tag: u8) -> (r: Result<Option<u32>, BpfmanError>)
    ensures
        r matches Ok(o) ==> o == field_u32(tree_model(*tree), tag) || (o is None && field_bytes(
            tree_model(*tree),
            tag,
        ) is None),
        r matches Ok(o) ==> (field_bytes(tree_model(*tree), tag) is Some ==> o == field_u32(
            tree_model(*tree),
            tag,
        )),
        r matches Ok(o) ==> (field_bytes(tree_model(*tree), tag) is None ==> o is None),
        field_bytes(tree_model(*tree), tag) matches Some(b) && b.len() != 4 ==> r is Err,
        r matches Err(e) ==> e is DatabaseError,
{
    match get_bytes_opt(tree, tag)? {
        None => Ok(None),
        Some(bytes) => {
            if bytes.len() != 4 {
                return Err(db_err(String::from_str("malformed 32-bit field")));
            }
            Ok(Some(u32_from_le_bytes(bytes.as_slice())))
        },
    }
}

/// Stores a signed 32-bit value under a tag, as its bit pattern.
pub(crate) fn put_i32(tree: &mut sled::Tree, tag: u8, v: i32) -> (r: Result<(), BpfmanError>)
    ensures
        tree_name_of(*final(tree)) == tree_name_of(*old(tree)),
        r is Ok ==> tree_model(*final(tree)) == tree_model(*old(tree)).insert(
            seq![tag],
            spec_u32_to_le_bytes(spec_i32_bits(v)),
        ),
        r is Ok ==> field_i32(tree_model(*final(tree)), tag) == Some(v),
        r is Err ==> wrote_or_kept(
            tree_model(*old(tree)),
            tree_model(*final(tree)),
            seq![tag],
            spec_u32_to_le_bytes(spec_i32_bits(v)),
        ),
        r matches Err(e) ==> e is DatabaseError,
{
    put_u32(tree, tag, i32_bits(v))
}

/// Reads the signed 32-bit value a tag must hold.
pub(crate) fn get_i32(tree: &sled::Tree, tag: u8) -> (r: Result<i32, BpfmanError>)
    ensures
        r matches Ok(v) ==> field_i32(tree_model(*tree), tag) == Some(v),
        field_i32(tree_model(*tree), tag) is None ==> r is Err,
        r matches Err(e) ==> e is DatabaseError,
{
    let v = get_u32(tree, tag)?;
    Ok(u32_unbits(v))
}

/// Reads the signed 32-bit value a tag may hold.
pub(crate) fn get_i32_opt(tree: &sled::Tree, tag: u8) -> (r: Result<Option<i32>, BpfmanError>)
    ensures
        r matches Ok(o) ==> (field_bytes(tree_model(*tree), tag) is Some ==> o == field_i32(
            tree_model(*tree),
            tag,
        )),
        r matches Ok(o) ==> (field_bytes(tree_model(*tree), tag) is None ==> o is None),
        r matches Err(e) ==> e is DatabaseError,
{
    match get_u32_opt(tree, tag)? {
        None => Ok(None),
        Some(v) => Ok(Some(u32_unbits(v))),
    }
}

/// Stores a 64-bit value under a tag.
pub(crate) fn put_u64(tree: &mut sled::Tree, tag: u8, v: u64) -> (r: Result<(), BpfmanError>)
    ensures
        tree_name_of(*final(tree)) == tree_name_of(*old(tree)),
        r is Ok ==> tree_model(*final(tree)) == tree_model(*old(tree)).insert(
            seq![tag],
            spec_u64_to_le_bytes(v),
        ),
        r is Ok ==> field_u64(tree_model(*final(tree)), tag) == Some(v),
        r is Err ==> wrote_or_kept(
            tree_model(*old(tree)),
            tree_model(*final(tree)),
            seq![tag],
            spec_u64_to_le_bytes(v),
        ),
        r matches Err(e) ==> e is DatabaseError,
{
    proof {
        vstd::bytes::lemma_auto_spec_u64_to_from_le_bytes();
    }
    let bytes = u64_to_le_bytes(v);
    put_bytes(tree, tag, bytes.as_slice())
}

/// Reads the 64-bit value a tag must hold.
pub(crate) fn get_u64(tree: &sled::Tree, tag: u8) -> (r: Result<u64, BpfmanError>)
    ensures
        r matches Ok(v) ==> field_u64(tree_model(*tree), tag) == Some(v),
        field_u64(tree_model(*tree), tag) is None ==> r is Err,
        r matches Err(e) ==> e is DatabaseError,
{
    let bytes = get_bytes(tree, tag)?;
    if bytes.len() != 8 {
        return Err(db_err(String::from_str("malformed 64-bit field")));
    }
    Ok(u64_from_le_bytes(bytes.as_slice()))
}

/// Reads the 64-bit value a tag may hold.
pub(crate) fn get_u64_opt(tree: &sled::Tree, tag: u8) -> (r: Result<Option<u64>, BpfmanError>)
    ensures
        r matches Ok(o) ==> (field_bytes(tree_model(*tree), tag) is Some ==> o == field_u64(
            tree_model(*tree),
            tag,
        )),
        r matches Ok(o) ==> (field_bytes(tree_model(*tree), tag) is None ==> o is None),
        r matches Err(e) ==> e is DatabaseError,
{
    match get_bytes_opt(tree, tag)? {
        None => Ok(None),
        Some(bytes) => {
            if bytes.len() != 8 {
                return Err(db_err(String::from_str("malformed 64-bit field")));
            }
            Ok(Some(u64_from_le_bytes(bytes.as_slice())))
        },
    }
}

/// Stores a boolean under a tag, as a zero or one byte.
pub(crate) fn put_bool(tree: &mut sled::Tree, tag: u8, v: bool) -> (r: Result<(), BpfmanError>)
    ensures
        tree_name_of(*final(tree)) == tree_name_of(*old(tree)),
        r is Ok ==> tree_model(*final(tree)) == tree_model(*old(tree)).insert(
            seq![tag],
            crate::codec::spec_bool_bytes(v),
        ),
        r is Ok ==> field_bool(tree_model(*final(tree)), tag) == Some(v),
        r is Err ==> wrote_or_kept(
            tree_model(*old(tree)),
            tree_model(*final(tree)),
            seq![tag],
            crate::codec::spec_bool_bytes(v),
        ),
        r matches Err(e) ==> e is DatabaseError,
{
    let byte: u8 = if v {
        1
    } else {
        0
    };
    let bytes = tag_key(byte);
    proof {
        assert(bytes@ =~= crate::codec::spec_bool_bytes(v));
    }
    put_bytes(tree, tag, bytes.as_slice())
}

/// Reads the boolean a tag may hold; a missing field reads as false.
pub(crate) fn get_bool_or_false(tree: &sled::Tree, tag: u8) -> (r: Result<bool, BpfmanError>)
    ensures
        r matches Ok(v) ==> (field_bytes(tree_model(*tree), tag) is Some ==> field_bool(
            tree_model(*tree),
            tag,
        ) == Some(v)),
        r matches Ok(v) ==> (field_bytes(tree_model(*tree), tag) is None ==> v == false),
        field_bytes(tree_model(*tree), tag) is Some && field_bool(tree_model(*tree), tag) is None
            ==> r is Err,
        r matches Err(e) ==> e is DatabaseError,
{
    match get_bytes_opt(tree, tag)? {
        None => Ok(false),
        Some(bytes) => {
            if bytes.len() == 1 {
                let b = *vstd::slice::slice_index_get(bytes.as_slice(), 0);
                if b == 1 {
                    Ok(true)
                } else if b == 0 {
                    Ok(false)
                } else {
                    Err(db_err(String::from_str("malformed boolean field")))
                }
            } else {
                Err(db_err(String::from_str("malformed boolean field")))
            }
        },
    }
}

/// Stores a string under a tag, as its UTF-8 bytes.
pub(crate) fn put_str(tree: &mut sled::Tree, tag: u8, v: &str) -> (r: Result<(), BpfmanError>)
    ensures
        tree_name_of(*final(tree)) == tree_name_of(*old(tree)),
        r is Ok ==> tree_model(*final(tree)) == tree_model(*old(tree)).insert(
            seq![tag],
            vstd::utf8::encode_utf8(v@),
        ),
        r is Ok ==> field_str(tree_model(*final(tree)), tag) == Some(v@),
        r is Err ==> wrote_or_kept(
            tree_model(*old(tree)),
            tree_model(*final(tree)),
            seq![tag],
            vstd::utf8::encode_utf8(v@),
        ),
        r matches Err(e) ==> e is DatabaseError,
{
    proof {
        vstd::utf8::encode_utf8_valid_utf8(v@);
        vstd::utf8::encode_utf8_decode_utf8(v@);
    }
    put_bytes(tree, tag, v.as_bytes())
}

/// Reads the string a tag must hold.
pub(crate) fn get_str(tree: &sled::Tree, tag: u8) -> (r: Result<String, BpfmanError>)
    ensures
        r matches Ok(s) ==> field_str(tree_model(*tree), tag) == Some(s@),
        field_str(tree_model(*tree), tag) is None ==> r is Err,
        r matches Err(e) ==> e is DatabaseError,
{
    let bytes = get_bytes(tree, tag)?;
    match string_from_utf8(bytes) {
        Some(s) => Ok(s),
        None => Err(db_err(String::from_str("field is not valid text"))),
    }
}

/// Reads the string a tag may hold.
pub(crate) fn get_str_opt(tree: &sled::Tree, tag: u8) -> (r: Result<Option<String>, BpfmanError>)
    ensures
        r matches Ok(o) ==> (field_bytes(tree_model(*tree), tag) is Some ==> (o matches Some(s)
            && field_str(tree_model(*tree), tag) == Some(s@))),
        r matches Ok(o) ==> (field_bytes(tree_model(*tree), tag) is None ==> o is None),
        field_bytes(tree_model(*tree), tag) is Some && field_str(tree_model(*tree), tag) is None
            ==> r is Err,
        r matches Err(e) ==> e is DatabaseError,
{
    match get_bytes_opt(tree, tag)? {
        None => Ok(None),
        Some(bytes) => match string_from_utf8(bytes) {
            Some(s) => Ok(Some(s)),
            None => Err(db_err(String::from_str("field is not valid text"))),
        },
    }
}

/// Stores a list of 32-bit values under a tag, packed.
pub(crate) fn put_u32s(tree: &mut sled::Tree, tag: u8, values: &Vec<u32>) -> (r: Result<
    (),
    BpfmanError,
>)
    ensures
        tree_name_of(*final(tree)) == tree_name_of(*old(tree)),
        r is Ok ==> tree_model(*final(tree)) == tree_model(*old(tree)).insert(
            seq![tag],
            spec_u32s_bytes(values@),
        ),
        r is Ok ==> field_u32s(tree_model(*final(tree)), tag) == Some(values@),
        r is Err ==> wrote_or_kept(
            tree_model(*old(tree)),
            tree_model(*final(tree)),
            seq![tag],
            spec_u32s_bytes(values@),
        ),
        r matches Err(e) ==> e is DatabaseError,
{
    proof {
        crate::codec::lemma_u32s_bytes_round_trip(values@);
    }
    let bytes = u32s_to_bytes(values);
    put_bytes(tree, tag, bytes.as_slice())
}

/// Reads the list of 32-bit values a tag must hold.
pub(crate) fn get_u32s(tree: &sled::Tree, tag: u8) -> (r: Result<Vec<u32>, BpfmanError>)
    ensures
        r matches Ok(v) ==> field_u32s(tree_model(*tree), tag) == Some(v@),
        field_u32s(tree_model(*tree), tag) is None ==> r is Err,
        r matches Err(e) ==> e is DatabaseError,
{
    let bytes = get_bytes(tree, tag)?;
    match u32s_from_bytes(&bytes) {
        Some(v) => Ok(v),
        None => Err(db_err(String::from_str("malformed list field"))),
    }
}

} // verus!
