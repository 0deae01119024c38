//! Listing filters: which programs a `list` request reports.
//!
//! Programs the daemon loaded onto a chain carry the kernel type of
//! a dispatcher extension, so type filtering compares the daemon's
//! recorded kind for daemon-owned programs, and the kernel's
//! reported type only for programs the daemon does not manage.

use vstd::prelude::*;
use vstd::utf8::encode_utf8;

use crate::data::{metadata_key, ProgramData, TAG_KERNEL_PROGRAM_TYPE};
use crate::errors::BpfmanError;
use crate::fields::field_u32;
use crate::programs::Program;
use crate::strutil::str_eq;
use crate::types::{spec_program_type_u32, ProgramType};

verus! {

/// What a `list` request may filter on: a program type, a metadata
/// selector (every pair must be present), and whether only
/// daemon-owned programs are wanted.
#[derive(Debug)]
pub struct ListFilter {
    pub program_type: Option<u32>,
    pub metadata_selector: Vec<(String, String)>,
    pub bpfman_programs_only: bool,
}

/// The daemon-kind encoding a daemon-owned program compares against.
pub open spec fn spec_program_kind_u32(p: &Program) -> u32 {
    match p {
        Program::Xdp(_) => spec_program_type_u32(ProgramType::Xdp),
        Program::Tc(_) => spec_program_type_u32(ProgramType::Tc),
        Program::Tracepoint(_) => spec_program_type_u32(ProgramType::Tracepoint),
        Program::Kprobe(_) => spec_program_type_u32(ProgramType::Probe),
        Program::Uprobe(_) => spec_program_type_u32(ProgramType::Probe),
        Program::Fentry(_) => spec_program_type_u32(ProgramType::Tracing),
        Program::Fexit(_) => spec_program_type_u32(ProgramType::Tracing),
        Program::Unsupported(_) => 0,
    }
}

/// Whether a program passes a filter. A program the daemon does not
/// manage passes only a filter that asks neither for daemon-owned
/// programs nor for metadata, and its kernel-recorded type must
/// match any requested type; a daemon-owned program matches on its
/// daemon kind and must hold every selector pair in its metadata.
pub open spec fn spec_filter_matches(f: &ListFilter, p: &Program) -> bool {
    match p {
        Program::Unsupported(d) => {
            &&& !f.bpfman_programs_only
            &&& (f.program_type matches Some(t) ==> field_u32(d.model(), TAG_KERNEL_PROGRAM_TYPE)
                == Some(t))
            &&& f.metadata_selector@.len() == 0
        },
        _ => {
            &&& (f.program_type matches Some(t) ==> spec_program_kind_u32(p) == t)
            &&& forall|i: int|
                0 <= i < f.metadata_selector@.len() ==> {
                    let pair = #[trigger] f.metadata_selector@[i];
                    p.model().contains_key(metadata_key(pair.0@)) && p.model()[metadata_key(
                        pair.0@,
                    )] == encode_utf8(pair.1@)
                }
        },
    }
}

impl ListFilter {
    /// Builds a filter; selector keys must be distinct, as a map's
    /// keys are.
    pub fn new(
        program_type: Option<u32>,
        metadata_selector: Vec<(String, String)>,
        bpfman_programs_only: bool,
    ) -> (r: ListFilter)
        ensures
            r.program_type == program_type,
            r.metadata_selector == metadata_selector,
            r.bpfman_programs_only == bpfman_programs_only,
    {
        ListFilter { program_type, metadata_selector, bpfman_programs_only }
    }

    /// Whether a program passes this filter. Only two paths consult
    /// the store — the kernel type of an unmanaged program, and the
    /// metadata of a managed one under a selector — so every other
    /// verdict is owed outright.
    pub fn matches(&self, program: &Program) -> (r: Result<bool, BpfmanError>)
        ensures
            r matches Ok(v) ==> v == spec_filter_matches(self, program),
            (*program) is Unsupported && (self.bpfman_programs_only || self.metadata_selector@.len()
                > 0) ==> r == Ok::<bool, BpfmanError>(false),
            (*program) is Unsupported && !self.bpfman_programs_only && self.metadata_selector@.len()
                == 0 && self.program_type is None ==> r == Ok::<bool, BpfmanError>(true),
            !((*program) is Unsupported) ==> (self.program_type matches Some(t)
                && spec_program_kind_u32(program) != t ==> r == Ok::<bool, BpfmanError>(false)),
            !((*program) is Unsupported) && self.metadata_selector@.len() == 0 ==> r is Ok,
    {
        match program {
            Program::Unsupported(d) => {
                if self.bpfman_programs_only {
                    return Ok(false);
                }
                if self.metadata_selector.len() > 0 {
                    return Ok(false);
                }
                match self.program_type {
                    Some(t) => {
                        let kt = d.get_kernel_program_type()?;
                        Ok(kt == t)
                    },
                    None => Ok(true),
                }
            },
            _ => {
                match self.program_type {
                    Some(t) => {
                        let kind = program_kind_u32(program);
                        if kind != t {
                            return Ok(false);
                        }
                    },
                    None => {},
                }
                if self.metadata_selector.len() == 0 {
                    return Ok(true);
                }
                let metadata = program.get_data().get_metadata()?;
                let mut i: usize = 0;
                while i < self.metadata_selector.len()
                    invariant
                        0 <= i <= self.metadata_selector@.len(),
                        !((*program) is Unsupported),
                        forall|j: int|
                            0 <= j < i ==> {
                                let pair = #[trigger] self.metadata_selector@[j];
                                program.model().contains_key(metadata_key(pair.0@))
                                    && program.model()[metadata_key(pair.0@)] == encode_utf8(
                                    pair.1@,
                                )
                            },
                        crate::data::metadata_sound(
                            program.get_data_spec().model(),
                            crate::data::str_pairs_view(metadata@),
                        ),
                        crate::data::metadata_complete(
                            program.get_data_spec().model(),
                            crate::data::str_pairs_view(metadata@),
                        ),
                    decreases self.metadata_selector@.len() - i,
                {
                    let wanted = &self.metadata_selector[i];
                    let mut found = false;
                    let mut j: usize = 0;
                    while j < metadata.len()
                        invariant
                            0 <= j <= metadata@.len(),
                            found ==> exists|m: int|
                                0 <= m < metadata@.len() && (#[trigger] metadata@[m]).0@
                                    == wanted.0@ && metadata@[m].1@ == wanted.1@,
                            !found ==> forall|m: int|
                                0 <= m < j ==> !((#[trigger] metadata@[m]).0@ == wanted.0@
                                    && metadata@[m].1@ == wanted.1@),
                        decreases metadata@.len() - j,
                    {
                        if str_eq(metadata[j].0.as_str(), wanted.0.as_str()) && str_eq(
                            metadata[j].1.as_str(),
                            wanted.1.as_str(),
                        ) {
                            found = true;
                        }
                        j = j + 1;
                    }
                    if !found {
                        proof {
                            lemma_selector_absent(
                                program.get_data_spec().model(),
                                crate::data::str_pairs_view(metadata@),
                                wanted.0@,
                                wanted.1@,
                            );
                        }
                        return Ok(false);
                    }
                    proof {
                        let m = choose|m: int|
                            0 <= m < metadata@.len() && (#[trigger] metadata@[m]).0@ == wanted.0@
                                && metadata@[m].1@ == wanted.1@;
                        assert(crate::data::str_pairs_view(metadata@)[m].0 == wanted.0@);
                        assert(program.model().contains_key(metadata_key(wanted.0@)));
                    }
                    i = i + 1;
                }
                Ok(true)
            },
        }
    }
}

/// The daemon-kind encoding of a daemon-owned program.
fn program_kind_u32(p: &Program) -> (r: u32)
    requires
        !((*p) is Unsupported),
    ensures
        r == spec_program_kind_u32(p),
{
    match p {
        Program::Xdp(_) => ProgramType::Xdp.to_u32(),
        Program::Tc(_) => ProgramType::Tc.to_u32(),
        Program::Tracepoint(_) => ProgramType::Tracepoint.to_u32(),
        Program::Kprobe(_) => ProgramType::Probe.to_u32(),
        Program::Uprobe(_) => ProgramType::Probe.to_u32(),
        Program::Fentry(_) => ProgramType::Tracing.to_u32(),
        Program::Fexit(_) => ProgramType::Tracing.to_u32(),
        Program::Unsupported(_) => 0,
    }
}

/// When no reported metadata pair equals a wanted pair, the tree
/// does not hold the wanted entry either.
proof fn lemma_selector_absent(
    m: Map<Seq<u8>, Seq<u8>>,
    pairs: Seq<(Seq<char>, Seq<char>)>,
    name: Seq<char>,
    value: Seq<char>,
)
    requires
        crate::data::metadata_sound(m, pairs),
        crate::data::metadata_complete(m, pairs),
        forall|i: int|
            0 <= i < pairs.len() ==> !((#[trigger] pairs[i]).0 == name && pairs[i].1 == value),
    ensures
        !(m.contains_key(metadata_key(name)) && m[metadata_key(name)] == encode_utf8(value)),
{
    if m.contains_key(metadata_key(name)) && m[metadata_key(name)] == encode_utf8(value) {
        assert(metadata_key(name).subrange(0, 1) =~= seq![crate::data::PREFIX_METADATA]);
        assert(crate::store::is_prefix_of(seq![crate::data::PREFIX_METADATA], metadata_key(name)));
        let i = choose|i: int|
            0 <= i < pairs.len() && metadata_key((#[trigger] pairs[i]).0) == metadata_key(name);
        vstd::utf8::encode_utf8_decode_utf8(pairs[i].0);
        vstd::utf8::encode_utf8_decode_utf8(name);
        assert((metadata_key(pairs[i].0)).skip(1) =~= encode_utf8(pairs[i].0));
        assert((metadata_key(name)).skip(1) =~= encode_utf8(name));
        assert(pairs[i].0 == name);
        vstd::utf8::encode_utf8_decode_utf8(pairs[i].1);
        vstd::utf8::encode_utf8_decode_utf8(value);
        assert(pairs[i].1 == value);
    }
}

/// A filter that names any program type other than a daemon kind
/// never passes a daemon-owned program. In particular, a filter for
/// the dispatcher-extension type — the type the kernel reports for
/// the programs the daemon itself loaded onto chains — passes none
/// of them: the comparison goes by the daemon's recorded kind.
pub proof fn lemma_filter_kind_is_daemon_kind(f: &ListFilter, p: &Program)
    requires
        !((*p) is Unsupported),
        f.program_type matches Some(t) && t != spec_program_kind_u32(p),
    ensures
        !spec_filter_matches(f, p),
{
}

} // verus!
