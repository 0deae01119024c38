//! The bytecode resolver's contract with the registry: resolved
//! bytes come with the symbols the bytecode exports, and a program
//! loaded from an image must declare an entry point that the image
//! really holds.

use vstd::prelude::*;

use crate::data::{ProgramData, TAG_LOCATION_FILENAME, TAG_NAME, TAG_PROGRAM_BYTES};
use crate::errors::BpfmanError;
use crate::fields::{field_bytes, field_str, put_bytes};
use crate::strutil::str_eq;

verus! {

/// Whether a symbol list holds a name.
pub open spec fn spec_symbols_contain(symbols: Seq<Seq<char>>, name: Seq<char>) -> bool {
    exists|i: int| 0 <= i < symbols.len() && symbols[i] == name
}

/// Checks that a declared entry-point name is among the symbols a
/// bytecode image exports; a name the image does not hold is
/// rejected with the image, the expected name and the symbols found.
pub fn verify_program_name(bytecode_image: &str, name: &str, symbols: &Vec<String>) -> (r: Result<
    (),
    BpfmanError,
>)
    ensures
        r is Ok <==> spec_symbols_contain(symbols.deep_view(), name@),
        r matches Err(e) ==> (e matches BpfmanError::ProgramNotFoundInBytecode {
            bytecode_image: img,
            expected_prog_name: expected,
            program_names: found,
        } && img@ == bytecode_image@ && expected@ == name@ && found.deep_view()
            == symbols.deep_view()),
{
    let mut i: usize = 0;
    while i < symbols.len()
        invariant
            0 <= i <= symbols@.len(),
            forall|j: int| 0 <= j < i ==> symbols.deep_view()[j] != name@,
        decreases symbols@.len() - i,
    {
        if str_eq(symbols[i].as_str(), name) {
            proof {
                assert(symbols.deep_view()[i as int] == name@);
            }
            return Ok(());
        }
        i = i + 1;
    }
    let mut found: Vec<String> = Vec::new();
    let mut j: usize = 0;
    while j < symbols.len()
        invariant
            0 <= j <= symbols@.len(),
            found@.len() == j,
            forall|m: int| 0 <= m < j ==> (#[trigger] found@[m])@ == symbols@[m]@,
        decreases symbols@.len() - j,
    {
        found.push(String::from_str(symbols[j].as_str()));
        j = j + 1;
    }
    proof {
        assert(found.deep_view() =~= symbols.deep_view());
    }
    Err(
        BpfmanError::ProgramNotFoundInBytecode {
            bytecode_image: String::from_str(bytecode_image),
            expected_prog_name: String::from_str(name),
            program_names: found,
        },
    )
}

impl ProgramData {
    /// Stores resolved bytecode. For a program resolved from an
    /// image, the declared entry point must be among the symbols the
    /// image exports; a missing symbol stores nothing and reports
    /// the expected name and the symbols found. A program read from
    /// a file carries no symbol list, so its declared name is
    /// trusted.
    pub fn set_program_bytes(&mut self, bytes: &Vec<u8>, symbols: &Vec<String>) -> (r: Result<
        (),
        BpfmanError,
    >)
        ensures
            final(self).spec_tree_name() == old(self).spec_tree_name(),
            r is Ok ==> field_bytes(final(self).model(), TAG_PROGRAM_BYTES) == Some(bytes@),
            r is Ok && field_bytes(old(self).model(), TAG_LOCATION_FILENAME) is None ==> (field_str(
                old(self).model(),
                TAG_NAME,
            ) matches Some(n) && spec_symbols_contain(symbols.deep_view(), n)),
            r matches Err(e) ==> (e is ProgramNotFoundInBytecode ==> final(self).model() == old(
                self,
            ).model()),
            r matches Err(e) ==> (e matches BpfmanError::ProgramNotFoundInBytecode {
                bytecode_image,
                expected_prog_name,
                program_names,
            } ==> {
                &&& field_str(old(self).model(), TAG_NAME) == Some(expected_prog_name@)
                &&& program_names.deep_view() == symbols.deep_view()
                &&& !spec_symbols_contain(symbols.deep_view(), expected_prog_name@)
                &&& (field_str(old(self).model(), crate::data::TAG_LOCATION_IMAGE_URL) matches Some(
                    u,
                ) ==> bytecode_image@ == u)
                &&& field_bytes(old(self).model(), TAG_LOCATION_FILENAME) is None
            }),
    {
        let is_file = match crate::fields::get_bytes_opt(&self.db_tree, TAG_LOCATION_FILENAME)? {
            Some(_) => true,
            None => false,
        };
        if !is_file {
            let url = match crate::fields::get_str_opt(
                &self.db_tree,
                crate::data::TAG_LOCATION_IMAGE_URL,
            )? {
                Some(u) => u,
                None => String::from_str(""),
            };
            let provided_name = self.get_name()?;
            verify_program_name(url.as_str(), provided_name.as_str(), symbols)?;
        }
        put_bytes(&mut self.db_tree, TAG_PROGRAM_BYTES, bytes.as_slice())
    }
}

} // verus!
