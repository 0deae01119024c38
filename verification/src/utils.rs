//! Small rules of the filesystem layer: which maps take part in
//! pinning, and where a program's artefacts are pinned.

use vstd::prelude::*;
use vstd::utf8::encode_utf8;

use crate::strutil::{bytes_contains, spec_contains_seq, spec_u32_decimal, u32_to_string};

verus! {

/// The runtime directory the BPF filesystem is mounted at.
pub const RTDIR_FS: &'static str = "/run/bpfd/fs";

/// Whether a map takes part in pinning: program-local initialiser
/// sections — read-only data, zero-initialised data and initialised
/// data — are not shareable state, so maps whose ELF section name
/// holds one of them stay unpinned.
pub fn should_map_be_pinned(name: &str) -> (r: bool)
    ensures
        r == !(spec_contains_seq(encode_utf8(name@), encode_utf8(".rodata"@)) || spec_contains_seq(
            encode_utf8(name@),
            encode_utf8(".bss"@),
        ) || spec_contains_seq(encode_utf8(name@), encode_utf8(".data"@))),
{
    let bytes = name.as_bytes();
    !(bytes_contains(bytes, ".rodata".as_bytes()) || bytes_contains(bytes, ".bss".as_bytes())
        || bytes_contains(bytes, ".data".as_bytes()))
}

/// The pin path of a program's kernel object.
pub fn prog_pin_path(id: u32) -> (r: String)
    ensures
        r@ == RTDIR_FS@ + "/prog_"@ + spec_u32_decimal(id),
{
    let s = String::from_str(RTDIR_FS);
    let s = s.concat("/prog_");
    s.concat(u32_to_string(id).as_str())
}

/// The default directory a program's maps are pinned under.
pub fn default_map_pin_path(id: u32) -> (r: String)
    ensures
        r@ == RTDIR_FS@ + "/maps/"@ + spec_u32_decimal(id),
{
    let s = String::from_str(RTDIR_FS);
    let s = s.concat("/maps/");
    s.concat(u32_to_string(id).as_str())
}

/// The pin path of a program's attachment link.
pub fn prog_link_pin_path(id: u32) -> (r: String)
    ensures
        r@ == RTDIR_FS@ + "/prog_"@ + spec_u32_decimal(id) + "_link"@,
{
    let s = prog_pin_path(id);
    s.concat("_link")
}

} // verus!
