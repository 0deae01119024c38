//! The typed program kinds: each wraps the common attribute store
//! and adds the fields of its hook, under that program's tree.

use vstd::prelude::*;

use crate::chain::ChainEntry;
use crate::data::ProgramData;
use crate::errors::BpfmanError;
use crate::fields::{
    field_bool, field_bytes, field_i32, field_str, field_u32, field_u32s, field_u64,
    get_bool_or_false, get_i32, get_str, get_u32_opt, get_u32s, get_u64_opt, put_bool, put_i32,
    put_str, put_u32, put_u32s, put_u64,
};
use crate::codec::{i32_bits, spec_i32_bits, spec_u32_unbits, u32_unbits};
use crate::proceed_on::{
    spec_tc_action_from_i32, spec_tc_action_i32, spec_xdp_action_from_i32, spec_xdp_action_i32,
    spec_tc_default, spec_xdp_default, TcProceedOn, TcProceedOnEntry, XdpProceedOn,
    XdpProceedOnEntry,
};
use crate::store::tree_model;
use crate::types::{spec_direction_from_u32, spec_direction_u32, Direction, ProgramType};

verus! {

pub const TAG_PRIORITY: u8 = 20;

pub const TAG_IFACE: u8 = 21;

pub const TAG_PROCEED_ON: u8 = 22;

pub const TAG_CURRENT_POSITION: u8 = 23;

pub const TAG_IF_INDEX: u8 = 24;

pub const TAG_ATTACHED: u8 = 25;

pub const TAG_DIRECTION: u8 = 26;

pub const TAG_TRACEPOINT_NAME: u8 = 30;

pub const TAG_KPROBE_FN_NAME: u8 = 31;

pub const TAG_KPROBE_OFFSET: u8 = 32;

pub const TAG_KPROBE_RETPROBE: u8 = 33;

pub const TAG_KPROBE_CONTAINER_PID: u8 = 34;

pub const TAG_UPROBE_FN_NAME: u8 = 35;

pub const TAG_UPROBE_OFFSET: u8 = 36;

pub const TAG_UPROBE_RETPROBE: u8 = 37;

pub const TAG_UPROBE_CONTAINER_PID: u8 = 38;

pub const TAG_UPROBE_PID: u8 = 39;

pub const TAG_UPROBE_TARGET: u8 = 40;

pub const TAG_FENTRY_FN_NAME: u8 = 41;

pub const TAG_FEXIT_FN_NAME: u8 = 42;

/// The packed words an XDP action list is stored as.
pub open spec fn xdp_proceed_encoding(s: Seq<XdpProceedOnEntry>) -> Seq<u32> {
    s.map_values(|e: XdpProceedOnEntry| spec_i32_bits(spec_xdp_action_i32(e)))
}

/// The packed words a TC action list is stored as.
pub open spec fn tc_proceed_encoding(s: Seq<TcProceedOnEntry>) -> Seq<u32> {
    s.map_values(|e: TcProceedOnEntry| spec_i32_bits(spec_tc_action_i32(e)))
}

/// The XDP action list, if every stored word decodes to an action.
pub open spec fn xdp_entries_of_u32s(vs: Seq<u32>) -> Option<Seq<XdpProceedOnEntry>>
    decreases vs.len(),
{
    if vs.len() == 0 {
        Some(Seq::empty())
    } else {
        match xdp_entries_of_u32s(vs.drop_last()) {
            Some(p) => match spec_xdp_action_from_i32(spec_u32_unbits(vs.last())) {
                Some(e) => Some(p.push(e)),
                None => None,
            },
            None => None,
        }
    }
}

/// The TC action list, if every stored word decodes to an action.
pub open spec fn tc_entries_of_u32s(vs: Seq<u32>) -> Option<Seq<TcProceedOnEntry>>
    decreases vs.len(),
{
    if vs.len() == 0 {
        Some(Seq::empty())
    } else {
        match tc_entries_of_u32s(vs.drop_last()) {
            Some(p) => match spec_tc_action_from_i32(spec_u32_unbits(vs.last())) {
                Some(e) => Some(p.push(e)),
                None => None,
            },
            None => None,
        }
    }
}

/// Every XDP action list round-trips through its stored words.
pub proof fn lemma_xdp_proceed_round_trip(s: Seq<XdpProceedOnEntry>)
    ensures
        xdp_entries_of_u32s(xdp_proceed_encoding(s)) == Some(s),
    decreases s.len(),
{
    if s.len() > 0 {
        let enc = xdp_proceed_encoding(s);
        assert(enc.drop_last() =~= xdp_proceed_encoding(s.drop_last()));
        lemma_xdp_proceed_round_trip(s.drop_last());
        assert(s.drop_last().push(s.last()) =~= s);
    }
}

/// Every TC action list round-trips through its stored words.
pub proof fn lemma_tc_proceed_round_trip(s: Seq<TcProceedOnEntry>)
    ensures
        tc_entries_of_u32s(tc_proceed_encoding(s)) == Some(s),
    decreases s.len(),
{
    if s.len() > 0 {
        let enc = tc_proceed_encoding(s);
        assert(enc.drop_last() =~= tc_proceed_encoding(s.drop_last()));
        lemma_tc_proceed_round_trip(s.drop_last());
        assert(s.drop_last().push(s.last()) =~= s);
    }
}

/// An XDP program: the common attributes plus the hook fields of
/// the XDP multi-program chain.
#[derive(Debug)]
pub struct XdpProgram {
    pub(crate) data: ProgramData,
}

impl XdpProgram {
    /// What this program's tree holds.
    pub open(crate) spec fn model(&self) -> Map<Seq<u8>, Seq<u8>> {
        self.data.model()
    }

    /// The name of this program's tree in the store.
    pub open(crate) spec fn spec_tree_name(&self) -> Seq<u8> {
        self.data.spec_tree_name()
    }

    /// Builds an XDP program over its attribute store, with its
    /// chain priority, interface and action set.
    pub fn new(data: ProgramData, priority: i32, iface: &str, proceed_on: &XdpProceedOn) -> (r:
        Result<XdpProgram, BpfmanError>)
        ensures
            r matches Ok(p) ==> field_i32(p.model(), TAG_PRIORITY) == Some(priority),
            r matches Ok(p) ==> field_str(p.model(), TAG_IFACE) == Some(iface@),
            r matches Ok(p) ==> field_u32s(p.model(), TAG_PROCEED_ON) == Some(
                xdp_proceed_encoding(proceed_on@),
            ),
            r matches Ok(p) ==> field_u32(p.model(), crate::data::TAG_KIND) == Some(
                crate::types::spec_program_type_u32(ProgramType::Xdp),
            ),
            r matches Ok(p) ==> (forall|k: Seq<u8>|
                (k != seq![TAG_PRIORITY] && k != seq![TAG_IFACE] && k != seq![TAG_PROCEED_ON] && k != seq![crate::data::TAG_KIND]) ==> ((#[trigger] p.model().contains_key(k)) == data.model().contains_key(
                    k,
                ) && (data.model().contains_key(k) ==> p.model()[k] == data.model()[k]))),
            r matches Err(e) ==> e is DatabaseError,
    {
        let mut xdp_prog = XdpProgram { data };
        xdp_prog.set_priority(priority)?;
        xdp_prog.set_iface(iface)?;
        xdp_prog.set_proceed_on(proceed_on)?;
        put_u32(&mut xdp_prog.data.db_tree, crate::data::TAG_KIND, ProgramType::Xdp.to_u32())?;
        proof {
            lemma_hook_tags_distinct();
        }
        Ok(xdp_prog)
    }

    /// Stores the chain priority.
    pub(crate) fn set_priority(&mut self, priority: i32) -> (r: Result<(), BpfmanError>)
        ensures
            final(self).spec_tree_name() == old(self).spec_tree_name(),
            r is Ok ==> final(self).model() == old(self).model().insert(
                seq![TAG_PRIORITY],
                vstd::bytes::spec_u32_to_le_bytes(spec_i32_bits(priority)),
            ),
            r is Ok ==> field_i32(final(self).model(), TAG_PRIORITY) == Some(priority),
            r is Err ==> crate::fields::wrote_or_kept(
                old(self).model(),
                final(self).model(),
                seq![TAG_PRIORITY],
                vstd::bytes::spec_u32_to_le_bytes(spec_i32_bits(priority)),
            ),
            r matches Err(e) ==> e is DatabaseError,
    {
        put_i32(&mut self.data.db_tree, TAG_PRIORITY, priority)
    }

    /// The chain priority.
    pub fn get_priority(&self) -> (r: Result<i32, BpfmanError>)
        ensures
            r matches Ok(v) ==> field_i32(self.model(), TAG_PRIORITY) == Some(v),
            field_i32(self.model(), TAG_PRIORITY) is None ==> r is Err,
            r matches Err(e) ==> e is DatabaseError,
    {
        get_i32(&self.data.db_tree, TAG_PRIORITY)
    }

    /// Stores the interface name.
    pub(crate) fn set_iface(&mut self, iface: &str) -> (r: Result<(), BpfmanError>)
        ensures
            final(self).spec_tree_name() == old(self).spec_tree_name(),
            r is Ok ==> final(self).model() == old(self).model().insert(
                seq![TAG_IFACE],
                vstd::utf8::encode_utf8(iface@),
            ),
            r is Ok ==> field_str(final(self).model(), TAG_IFACE) == Some(iface@),
            r is Err ==> crate::fields::wrote_or_kept(
                old(self).model(),
                final(self).model(),
                seq![TAG_IFACE],
                vstd::utf8::encode_utf8(iface@),
            ),
            r matches Err(e) ==> e is DatabaseError,
    {
        put_str(&mut self.data.db_tree, TAG_IFACE, iface)
    }

    /// The interface name.
    pub fn get_iface(&self) -> (r: Result<String, BpfmanError>)
        ensures
            r matches Ok(s) ==> field_str(self.model(), TAG_IFACE) == Some(s@),
            field_str(self.model(), TAG_IFACE) is None ==> r is Err,
            r matches Err(e) ==> e is DatabaseError,
    {
        get_str(&self.data.db_tree, TAG_IFACE)
    }

    /// Stores the action set, packed.
    pub(crate) fn set_proceed_on(&mut self, proceed_on: &XdpProceedOn) -> (r: Result<
        (),
        BpfmanError,
    >)
        ensures
            final(self).spec_tree_name() == old(self).spec_tree_name(),
            r is Ok ==> final(self).model() == old(self).model().insert(
                seq![TAG_PROCEED_ON],
                crate::codec::spec_u32s_bytes(xdp_proceed_encoding(proceed_on@)),
            ),
            r is Ok ==> field_u32s(final(self).model(), TAG_PROCEED_ON) == Some(
                xdp_proceed_encoding(proceed_on@),
            ),
            r is Err ==> crate::fields::wrote_or_kept(
                old(self).model(),
                final(self).model(),
                seq![TAG_PROCEED_ON],
                crate::codec::spec_u32s_bytes(xdp_proceed_encoding(proceed_on@)),
            ),
            r matches Err(e) ==> e is DatabaseError,
    {
        let actions = proceed_on.as_action_vec();
        let mut words: Vec<u32> = Vec::new();
        let mut i: usize = 0;
        while i < actions.len()
            invariant
                0 <= i <= actions@.len(),
                actions@ == proceed_on@.map_values(|e: XdpProceedOnEntry| spec_xdp_action_i32(e)),
                words@ == xdp_proceed_encoding(proceed_on@).take(i as int),
            decreases actions@.len() - i,
        {
            words.push(i32_bits(actions[i]));
            proof {
                assert(xdp_proceed_encoding(proceed_on@).take(i + 1) =~= xdp_proceed_encoding(
                    proceed_on@,
                ).take(i as int).push(spec_i32_bits(actions@[i as int])));
            }
            i = i + 1;
        }
        proof {
            assert(xdp_proceed_encoding(proceed_on@).take(
                xdp_proceed_encoding(proceed_on@).len() as int,
            ) =~= xdp_proceed_encoding(proceed_on@));
        }
        put_u32s(&mut self.data.db_tree, TAG_PROCEED_ON, &words)
    }

    /// The stored action set; a stored empty set reads back as the
    /// default set.
    pub fn get_proceed_on(&self) -> (r: Result<XdpProceedOn, BpfmanError>)
        ensures
            r matches Ok(p) ==> (field_u32s(self.model(), TAG_PROCEED_ON) matches Some(vs)
                && xdp_entries_of_u32s(vs) matches Some(es) && (es.len() > 0 ==> p@ == es) && (
            es.len() == 0 ==> p@ == spec_xdp_default())),
            field_u32s(self.model(), TAG_PROCEED_ON) is None ==> r is Err,
            field_u32s(self.model(), TAG_PROCEED_ON) matches Some(vs) ==> (xdp_entries_of_u32s(
                vs,
            ) is None ==> r is Err),
            r matches Err(e) ==> e is DatabaseError || e is Parse,
    {
        let words = get_u32s(&self.data.db_tree, TAG_PROCEED_ON)?;
        let mut entries: Vec<XdpProceedOnEntry> = Vec::new();
        let mut i: usize = 0;
        while i < words.len()
            invariant
                0 <= i <= words@.len(),
                xdp_entries_of_u32s(words@.take(i as int)) == Some(entries@),
            decreases words@.len() - i,
        {
            let ghost prefix = words@.take(i as int);
            match XdpProceedOnEntry::from_i32(u32_unbits(words[i])) {
                Ok(e) => {
                    entries.push(e);
                },
                Err(e) => {
                    proof {
                        lemma_xdp_words_extend_none(words@, i as int);
                    }
                    return Err(BpfmanError::Parse(e));
                },
            }
            proof {
                assert(words@.take(i + 1).drop_last() =~= prefix);
                assert(words@.take(i + 1).last() == words@[i as int]);
            }
            i = i + 1;
        }
        proof {
            assert(words@.take(words@.len() as int) =~= words@);
        }
        Ok(XdpProceedOn::from_entries(entries))
    }

    /// Stores the program's position in its chain.
    pub(crate) fn set_current_position(&mut self, pos: usize) -> (r: Result<(), BpfmanError>)
        ensures
            final(self).spec_tree_name() == old(self).spec_tree_name(),
            r is Ok ==> final(self).model() == old(self).model().insert(
                seq![TAG_CURRENT_POSITION],
                vstd::bytes::spec_u64_to_le_bytes(pos as u64),
            ),
            r is Ok ==> field_u64(final(self).model(), TAG_CURRENT_POSITION) == Some(
                pos as u64,
            ),
            r matches Err(e) ==> e is DatabaseError,
    {
        put_u64(&mut self.data.db_tree, TAG_CURRENT_POSITION, pos as u64)
    }

    /// The program's position in its chain, if it stands in one.
    pub fn get_current_position(&self) -> (r: Result<Option<usize>, BpfmanError>)
        ensures
            r matches Ok(Some(p)) ==> field_u64(self.model(), TAG_CURRENT_POSITION) == Some(
                p as u64,
            ),
            r matches Ok(o) ==> (o is None ==> field_u64(
                self.model(),
                TAG_CURRENT_POSITION,
            ) is None),
            r matches Err(e) ==> e is DatabaseError,
    {
        match get_u64_opt(&self.data.db_tree, TAG_CURRENT_POSITION)? {
            None => Ok(None),
            Some(v) => {
                if v <= usize::MAX as u64 {
                    Ok(Some(v as usize))
                } else {
                    Err(
                        BpfmanError::DatabaseError(
                            String::from_str("store access"),
                            String::from_str("position does not fit this machine"),
                        ),
                    )
                }
            },
        }
    }

    /// Stores the resolved interface index.
    pub(crate) fn set_if_index(&mut self, if_index: u32) -> (r: Result<(), BpfmanError>)
        ensures
            final(self).spec_tree_name() == old(self).spec_tree_name(),
            r is Ok ==> field_u32(final(self).model(), TAG_IF_INDEX) == Some(if_index),
            r matches Err(e) ==> e is DatabaseError,
    {
        put_u32(&mut self.data.db_tree, TAG_IF_INDEX, if_index)
    }

    /// The resolved interface index, once known.
    pub fn get_if_index(&self) -> (r: Result<Option<u32>, BpfmanError>)
        ensures
            r matches Ok(o) ==> (field_bytes(self.model(), TAG_IF_INDEX) is Some ==> o
                == field_u32(self.model(), TAG_IF_INDEX)),
            r matches Ok(o) ==> (field_bytes(self.model(), TAG_IF_INDEX) is None ==> o
                is None),
            r matches Err(e) ==> e is DatabaseError,
    {
        get_u32_opt(&self.data.db_tree, TAG_IF_INDEX)
    }

    /// Stores whether the program is attached.
    pub(crate) fn set_attached(&mut self, attached: bool) -> (r: Result<(), BpfmanError>)
        ensures
            final(self).spec_tree_name() == old(self).spec_tree_name(),
            r is Ok ==> final(self).model() == old(self).model().insert(
                seq![TAG_ATTACHED],
                crate::codec::spec_bool_bytes(attached),
            ),
            r is Ok ==> field_bool(final(self).model(), TAG_ATTACHED) == Some(attached),
            r matches Err(e) ==> e is DatabaseError,
    {
        put_bool(&mut self.data.db_tree, TAG_ATTACHED, attached)
    }

    /// Whether the program is attached; never marked reads as not
    /// attached.
    pub fn get_attached(&self) -> (r: Result<bool, BpfmanError>)
        ensures
            r matches Ok(v) ==> (field_bytes(self.model(), TAG_ATTACHED) is Some ==> field_bool(
                self.model(),
                TAG_ATTACHED,
            ) == Some(v)),
            r matches Ok(v) ==> (field_bytes(self.model(), TAG_ATTACHED) is None ==> v
                == false),
            r matches Err(e) ==> e is DatabaseError,
    {
        get_bool_or_false(&self.data.db_tree, TAG_ATTACHED)
    }


    /// Records a rebuilt chain's verdict on the program with the
    /// given id: its position is its 0-based index in the chain —
    /// positions are recomputed on every rebuild, a snapshot, not a
    /// handle — and the program is marked attached. An id the chain
    /// does not hold places nothing and is reported as not found.
    pub fn record_placement(&mut self, chain: &Vec<ChainEntry>, id: u32) -> (r: Result<
        usize,
        BpfmanError,
    >)
        ensures
            final(self).spec_tree_name() == old(self).spec_tree_name(),
            r matches Ok(i) ==> {
                &&& i < chain@.len()
                &&& chain@[i as int].id == id
                &&& field_u64(final(self).model(), TAG_CURRENT_POSITION) == Some(i as u64)
                &&& field_bool(final(self).model(), TAG_ATTACHED) == Some(true)
            },
            (forall|j: int| 0 <= j < chain@.len() ==> (#[trigger] chain@[j]).id != id) ==> r
                == Err::<usize, BpfmanError>(BpfmanError::NotFound { id }),
            r matches Err(e) ==> (e is NotFound ==> forall|j: int|
                0 <= j < chain@.len() ==> (#[trigger] chain@[j]).id != id),
    {
        match crate::chain::position_of(chain, id) {
            Some(i) => {
                self.set_current_position(i)?;
                self.set_attached(true)?;
                proof {
                    assert(seq![TAG_CURRENT_POSITION][0] == TAG_CURRENT_POSITION);
                    assert(seq![TAG_ATTACHED][0] == TAG_ATTACHED);
                }
                Ok(i)
            },
            None => Err(BpfmanError::NotFound { id }),
        }
    }

    /// The common attributes.
    pub fn get_data(&self) -> (r: &ProgramData)
        ensures
            r.model() == self.model(),
            r.spec_tree_name() == self.spec_tree_name(),
    {
        &self.data
    }

    /// The common attributes, for writing.
    pub fn get_data_mut(&mut self) -> (r: &mut ProgramData) {
        &mut self.data
    }
}

/// A TC program: the common attributes plus the hook fields of
/// the TC multi-program chain, including its traffic direction.
#[derive(Debug)]
pub struct TcProgram {
    pub(crate) data: ProgramData,
}

impl TcProgram {
    /// What this program's tree holds.
    pub open(crate) spec fn model(&self) -> Map<Seq<u8>, Seq<u8>> {
        self.data.model()
    }

    /// The name of this program's tree in the store.
    pub open(crate) spec fn spec_tree_name(&self) -> Seq<u8> {
        self.data.spec_tree_name()
    }

    /// Builds a TC program over its attribute store, with its
    /// chain priority, interface, action set and direction.
    pub fn new(
        data: ProgramData,
        priority: i32,
        iface: &str,
        proceed_on: &TcProceedOn,
        direction: Direction,
    ) -> (r: Result<TcProgram, BpfmanError>)
        ensures
            r matches Ok(p) ==> field_i32(p.model(), TAG_PRIORITY) == Some(priority),
            r matches Ok(p) ==> field_u32(p.model(), TAG_DIRECTION) == Some(
                spec_direction_u32(direction),
            ),
            r matches Ok(p) ==> field_str(p.model(), TAG_IFACE) == Some(iface@),
            r matches Ok(p) ==> field_u32s(p.model(), TAG_PROCEED_ON) == Some(
                tc_proceed_encoding(proceed_on@),
            ),
            r matches Ok(p) ==> field_u32(p.model(), crate::data::TAG_KIND) == Some(
                crate::types::spec_program_type_u32(ProgramType::Tc),
            ),
            r matches Ok(p) ==> (forall|k: Seq<u8>|
                (k != seq![TAG_PRIORITY] && k != seq![TAG_IFACE] && k != seq![TAG_PROCEED_ON] && k != seq![TAG_DIRECTION] && k != seq![crate::data::TAG_KIND]) ==> ((#[trigger] p.model().contains_key(k)) == data.model().contains_key(
                    k,
                ) && (data.model().contains_key(k) ==> p.model()[k] == data.model()[k]))),
            r matches Err(e) ==> e is DatabaseError,
    {
        let mut tc_prog = TcProgram { data };
        tc_prog.set_priority(priority)?;
        tc_prog.set_iface(iface)?;
        tc_prog.set_proceed_on(proceed_on)?;
        tc_prog.set_direction(direction)?;
        put_u32(&mut tc_prog.data.db_tree, crate::data::TAG_KIND, ProgramType::Tc.to_u32())?;
        proof {
            lemma_hook_tags_distinct();
        }
        Ok(tc_prog)
    }

    /// Stores the chain priority.
    pub(crate) fn set_priority(&mut self, priority: i32) -> (r: Result<(), BpfmanError>)
        ensures
            final(self).spec_tree_name() == old(self).spec_tree_name(),
            r is Ok ==> final(self).model() == old(self).model().insert(
                seq![TAG_PRIORITY],
                vstd::bytes::spec_u32_to_le_bytes(spec_i32_bits(priority)),
            ),
            r is Ok ==> field_i32(final(self).model(), TAG_PRIORITY) == Some(priority),
            r is Err ==> crate::fields::wrote_or_kept(
                old(self).model(),
                final(self).model(),
                seq![TAG_PRIORITY],
                vstd::bytes::spec_u32_to_le_bytes(spec_i32_bits(priority)),
            ),
            r matches Err(e) ==> e is DatabaseError,
    {
        put_i32(&mut self.data.db_tree, TAG_PRIORITY, priority)
    }

    /// The chain priority.
    pub fn get_priority(&self) -> (r: Result<i32, BpfmanError>)
        ensures
            r matches Ok(v) ==> field_i32(self.model(), TAG_PRIORITY) == Some(v),
            field_i32(self.model(), TAG_PRIORITY) is None ==> r is Err,
            r matches Err(e) ==> e is DatabaseError,
    {
        get_i32(&self.data.db_tree, TAG_PRIORITY)
    }

    /// Stores the interface name.
    pub(crate) fn set_iface(&mut self, iface: &str) -> (r: Result<(), BpfmanError>)
        ensures
            final(self).spec_tree_name() == old(self).spec_tree_name(),
            r is Ok ==> final(self).model() == old(self).model().insert(
                seq![TAG_IFACE],
                vstd::utf8::encode_utf8(iface@),
            ),
            r is Ok ==> field_str(final(self).model(), TAG_IFACE) == Some(iface@),
            r is Err ==> crate::fields::wrote_or_kept(
                old(self).model(),
                final(self).model(),
                seq![TAG_IFACE],
                vstd::utf8::encode_utf8(iface@),
            ),
            r matches Err(e) ==> e is DatabaseError,
    {
        put_str(&mut self.data.db_tree, TAG_IFACE, iface)
    }

    /// The interface name.
    pub fn get_iface(&self) -> (r: Result<String, BpfmanError>)
        ensures
            r matches Ok(s) ==> field_str(self.model(), TAG_IFACE) == Some(s@),
            field_str(self.model(), TAG_IFACE) is None ==> r is Err,
            r matches Err(e) ==> e is DatabaseError,
    {
        get_str(&self.data.db_tree, TAG_IFACE)
    }

    /// Stores the action set, packed.
    pub(crate) fn set_proceed_on(&mut self, proceed_on: &TcProceedOn) -> (r: Result<
        (),
        BpfmanError,
    >)
        ensures
            final(self).spec_tree_name() == old(self).spec_tree_name(),
            r is Ok ==> final(self).model() == old(self).model().insert(
                seq![TAG_PROCEED_ON],
                crate::codec::spec_u32s_bytes(tc_proceed_encoding(proceed_on@)),
            ),
            r is Ok ==> field_u32s(final(self).model(), TAG_PROCEED_ON) == Some(
                tc_proceed_encoding(proceed_on@),
            ),
            r is Err ==> crate::fields::wrote_or_kept(
                old(self).model(),
                final(self).model(),
                seq![TAG_PROCEED_ON],
                crate::codec::spec_u32s_bytes(tc_proceed_encoding(proceed_on@)),
            ),
            r matches Err(e) ==> e is DatabaseError,
    {
        let actions = proceed_on.as_action_vec();
        let mut words: Vec<u32> = Vec::new();
        let mut i: usize = 0;
        while i < actions.len()
            invariant
                0 <= i <= actions@.len(),
                actions@ == proceed_on@.map_values(|e: TcProceedOnEntry| spec_tc_action_i32(e)),
                words@ == tc_proceed_encoding(proceed_on@).take(i as int),
            decreases actions@.len() - i,
        {
            words.push(i32_bits(actions[i]));
            proof {
                assert(tc_proceed_encoding(proceed_on@).take(i + 1) =~= tc_proceed_encoding(
                    proceed_on@,
                ).take(i as int).push(spec_i32_bits(actions@[i as int])));
            }
            i = i + 1;
        }
        proof {
            assert(tc_proceed_encoding(proceed_on@).take(
                tc_proceed_encoding(proceed_on@).len() as int,
            ) =~= tc_proceed_encoding(proceed_on@));
        }
        put_u32s(&mut self.data.db_tree, TAG_PROCEED_ON, &words)
    }

    /// The stored action set; a stored empty set reads back as the
    /// default set.
    pub fn get_proceed_on(&self) -> (r: Result<TcProceedOn, BpfmanError>)
        ensures
            r matches Ok(p) ==> (field_u32s(self.model(), TAG_PROCEED_ON) matches Some(vs)
                && tc_entries_of_u32s(vs) matches Some(es) && (es.len() > 0 ==> p@ == es) && (
            es.len() == 0 ==> p@ == spec_tc_default())),
            field_u32s(self.model(), TAG_PROCEED_ON) is None ==> r is Err,
            field_u32s(self.model(), TAG_PROCEED_ON) matches Some(vs) ==> (tc_entries_of_u32s(
                vs,
            ) is None ==> r is Err),
            r matches Err(e) ==> e is DatabaseError || e is Parse,
    {
        let words = get_u32s(&self.data.db_tree, TAG_PROCEED_ON)?;
        let mut entries: Vec<TcProceedOnEntry> = Vec::new();
        let mut i: usize = 0;
        while i < words.len()
            invariant
                0 <= i <= words@.len(),
                tc_entries_of_u32s(words@.take(i as int)) == Some(entries@),
            decreases words@.len() - i,
        {
            let ghost prefix = words@.take(i as int);
            match TcProceedOnEntry::from_i32(u32_unbits(words[i])) {
                Ok(e) => {
                    entries.push(e);
                },
                Err(e) => {
                    proof {
                        lemma_tc_words_extend_none(words@, i as int);
                    }
                    return Err(BpfmanError::Parse(e));
                },
            }
            proof {
                assert(words@.take(i + 1).drop_last() =~= prefix);
                assert(words@.take(i + 1).last() == words@[i as int]);
            }
            i = i + 1;
        }
        proof {
            assert(words@.take(words@.len() as int) =~= words@);
        }
        Ok(TcProceedOn::from_entries(entries))
    }

    /// Stores the program's position in its chain.
    pub(crate) fn set_current_position(&mut self, pos: usize) -> (r: Result<(), BpfmanError>)
        ensures
            final(self).spec_tree_name() == old(self).spec_tree_name(),
            r is Ok ==> final(self).model() == old(self).model().insert(
                seq![TAG_CURRENT_POSITION],
                vstd::bytes::spec_u64_to_le_bytes(pos as u64),
            ),
            r is Ok ==> field_u64(final(self).model(), TAG_CURRENT_POSITION) == Some(
                pos as u64,
            ),
            r matches Err(e) ==> e is DatabaseError,
    {
        put_u64(&mut self.data.db_tree, TAG_CURRENT_POSITION, pos as u64)
    }

    /// The program's position in its chain, if it stands in one.
    pub fn get_current_position(&self) -> (r: Result<Option<usize>, BpfmanError>)
        ensures
            r matches Ok(Some(p)) ==> field_u64(self.model(), TAG_CURRENT_POSITION) == Some(
                p as u64,
            ),
            r matches Ok(o) ==> (o is None ==> field_u64(
                self.model(),
                TAG_CURRENT_POSITION,
            ) is None),
            r matches Err(e) ==> e is DatabaseError,
    {
        match get_u64_opt(&self.data.db_tree, TAG_CURRENT_POSITION)? {
            None => Ok(None),
            Some(v) => {
                if v <= usize::MAX as u64 {
                    Ok(Some(v as usize))
                } else {
                    Err(
                        BpfmanError::DatabaseError(
                            String::from_str("store access"),
                            String::from_str("position does not fit this machine"),
                        ),
                    )
                }
            },
        }
    }

    /// Stores the resolved interface index.
    pub(crate) fn set_if_index(&mut self, if_index: u32) -> (r: Result<(), BpfmanError>)
        ensures
            final(self).spec_tree_name() == old(self).spec_tree_name(),
            r is Ok ==> field_u32(final(self).model(), TAG_IF_INDEX) == Some(if_index),
            r matches Err(e) ==> e is DatabaseError,
    {
        put_u32(&mut self.data.db_tree, TAG_IF_INDEX, if_index)
    }

    /// The resolved interface index, once known.
    pub fn get_if_index(&self) -> (r: Result<Option<u32>, BpfmanError>)
        ensures
            r matches Ok(o) ==> (field_bytes(self.model(), TAG_IF_INDEX) is Some ==> o
                == field_u32(self.model(), TAG_IF_INDEX)),
            r matches Ok(o) ==> (field_bytes(self.model(), TAG_IF_INDEX) is None ==> o
                is None),
            r matches Err(e) ==> e is DatabaseError,
    {
        get_u32_opt(&self.data.db_tree, TAG_IF_INDEX)
    }

    /// Stores whether the program is attached.
    pub(crate) fn set_attached(&mut self, attached: bool) -> (r: Result<(), BpfmanError>)
        ensures
            final(self).spec_tree_name() == old(self).spec_tree_name(),
            r is Ok ==> final(self).model() == old(self).model().insert(
                seq![TAG_ATTACHED],
                crate::codec::spec_bool_bytes(attached),
            ),
            r is Ok ==> field_bool(final(self).model(), TAG_ATTACHED) == Some(attached),
            r matches Err(e) ==> e is DatabaseError,
    {
        put_bool(&mut self.data.db_tree, TAG_ATTACHED, attached)
    }

    /// Whether the program is attached; never marked reads as not
    /// attached.
    pub fn get_attached(&self) -> (r: Result<bool, BpfmanError>)
        ensures
            r matches Ok(v) ==> (field_bytes(self.model(), TAG_ATTACHED) is Some ==> field_bool(
                self.model(),
                TAG_ATTACHED,
            ) == Some(v)),
            r matches Ok(v) ==> (field_bytes(self.model(), TAG_ATTACHED) is None ==> v
                == false),
            r matches Err(e) ==> e is DatabaseError,
    {
        get_bool_or_false(&self.data.db_tree, TAG_ATTACHED)
    }

    /// Stores the traffic direction.
    pub(crate) fn set_direction(&mut self, direction: Direction) -> (r: Result<(), BpfmanError>)
        ensures
            final(self).spec_tree_name() == old(self).spec_tree_name(),
            r is Ok ==> final(self).model() == old(self).model().insert(
                seq![TAG_DIRECTION],
                vstd::bytes::spec_u32_to_le_bytes(spec_direction_u32(direction)),
            ),
            r is Ok ==> field_u32(final(self).model(), TAG_DIRECTION) == Some(
                spec_direction_u32(direction),
            ),
            r is Err ==> crate::fields::wrote_or_kept(
                old(self).model(),
                final(self).model(),
                seq![TAG_DIRECTION],
                vstd::bytes::spec_u32_to_le_bytes(spec_direction_u32(direction)),
            ),
            r matches Err(e) ==> e is DatabaseError,
    {
        put_u32(&mut self.data.db_tree, TAG_DIRECTION, direction.to_u32())
    }

    /// The traffic direction.
    pub fn get_direction(&self) -> (r: Result<Direction, BpfmanError>)
        ensures
            r matches Ok(d) ==> (field_u32(self.model(), TAG_DIRECTION) matches Some(v)
                && spec_direction_from_u32(v) == Some(d)),
            field_u32(self.model(), TAG_DIRECTION) is None ==> r is Err,
            r matches Err(e) ==> e is DatabaseError || e is Parse,
    {
        let v = crate::fields::get_u32(&self.data.db_tree, TAG_DIRECTION)?;
        match Direction::from_u32(v) {
            Ok(d) => Ok(d),
            Err(e) => Err(BpfmanError::Parse(e)),
        }
    }


    /// Records a rebuilt chain's verdict on the program with the
    /// given id: its position is its 0-based index in the chain —
    /// positions are recomputed on every rebuild, a snapshot, not a
    /// handle — and the program is marked attached. An id the chain
    /// does not hold places nothing and is reported as not found.
    pub fn record_placement(&mut self, chain: &Vec<ChainEntry>, id: u32) -> (r: Result<
        usize,
        BpfmanError,
    >)
        ensures
            final(self).spec_tree_name() == old(self).spec_tree_name(),
            r matches Ok(i) ==> {
                &&& i < chain@.len()
                &&& chain@[i as int].id == id
                &&& field_u64(final(self).model(), TAG_CURRENT_POSITION) == Some(i as u64)
                &&& field_bool(final(self).model(), TAG_ATTACHED) == Some(true)
            },
            (forall|j: int| 0 <= j < chain@.len() ==> (#[trigger] chain@[j]).id != id) ==> r
                == Err::<usize, BpfmanError>(BpfmanError::NotFound { id }),
            r matches Err(e) ==> (e is NotFound ==> forall|j: int|
                0 <= j < chain@.len() ==> (#[trigger] chain@[j]).id != id),
    {
        match crate::chain::position_of(chain, id) {
            Some(i) => {
                self.set_current_position(i)?;
                self.set_attached(true)?;
                proof {
                    assert(seq![TAG_CURRENT_POSITION][0] == TAG_CURRENT_POSITION);
                    assert(seq![TAG_ATTACHED][0] == TAG_ATTACHED);
                }
                Ok(i)
            },
            None => Err(BpfmanError::NotFound { id }),
        }
    }

    /// The common attributes.
    pub fn get_data(&self) -> (r: &ProgramData)
        ensures
            r.model() == self.model(),
            r.spec_tree_name() == self.spec_tree_name(),
    {
        &self.data
    }

    /// The common attributes, for writing.
    pub fn get_data_mut(&mut self) -> (r: &mut ProgramData) {
        &mut self.data
    }
}

/// The hook-field tags of a chain member are distinct from each
/// other and from the kind tag.
proof fn lemma_hook_tags_distinct()
    ensures
        seq![TAG_PRIORITY] != seq![TAG_IFACE],
        seq![TAG_PRIORITY] != seq![TAG_PROCEED_ON],
        seq![TAG_PRIORITY] != seq![crate::data::TAG_KIND],
        seq![TAG_IFACE] != seq![TAG_PROCEED_ON],
        seq![TAG_IFACE] != seq![crate::data::TAG_KIND],
        seq![TAG_PROCEED_ON] != seq![crate::data::TAG_KIND],
        seq![TAG_DIRECTION] != seq![TAG_PRIORITY],
        seq![TAG_DIRECTION] != seq![TAG_IFACE],
        seq![TAG_DIRECTION] != seq![TAG_PROCEED_ON],
        seq![TAG_DIRECTION] != seq![crate::data::TAG_KIND],
{
    assert(seq![TAG_PRIORITY][0] == TAG_PRIORITY);
    assert(seq![TAG_IFACE][0] == TAG_IFACE);
    assert(seq![TAG_PROCEED_ON][0] == TAG_PROCEED_ON);
    assert(seq![TAG_DIRECTION][0] == TAG_DIRECTION);
    assert(seq![crate::data::TAG_KIND][0] == crate::data::TAG_KIND);
}

/// Extending the stored words with an undecodable word makes the
/// whole list undecodable.
proof fn lemma_xdp_words_extend_none(vs: Seq<u32>, i: int)
    requires
        0 <= i < vs.len(),
        spec_xdp_action_from_i32(spec_u32_unbits(vs[i])) is None,
    ensures
        xdp_entries_of_u32s(vs) is None,
    decreases vs.len(),
{
    if vs.len() > 0 {
        if i == vs.len() - 1 {
        } else {
            assert(vs.drop_last()[i] == vs[i]);
            lemma_xdp_words_extend_none(vs.drop_last(), i);
        }
    }
}

/// Extending the stored words with an undecodable word makes the
/// whole list undecodable.
proof fn lemma_tc_words_extend_none(vs: Seq<u32>, i: int)
    requires
        0 <= i < vs.len(),
        spec_tc_action_from_i32(spec_u32_unbits(vs[i])) is None,
    ensures
        tc_entries_of_u32s(vs) is None,
    decreases vs.len(),
{
    if vs.len() > 0 {
        if i == vs.len() - 1 {
        } else {
            assert(vs.drop_last()[i] == vs[i]);
            lemma_tc_words_extend_none(vs.drop_last(), i);
        }
    }
}

/// A tracepoint program: the common attributes plus the name of
/// the kernel tracepoint it attaches to.
#[derive(Debug)]
pub struct TracepointProgram {
    pub(crate) data: ProgramData,
}

impl TracepointProgram {
    /// What this program's tree holds.
    pub open(crate) spec fn model(&self) -> Map<Seq<u8>, Seq<u8>> {
        self.data.model()
    }

    /// The name of this program's tree in the store.
    pub open(crate) spec fn spec_tree_name(&self) -> Seq<u8> {
        self.data.spec_tree_name()
    }

    /// Stores the tracepoint.
    pub(crate) fn set_tracepoint(&mut self, tracepoint: &str) -> (r: Result<(), BpfmanError>)
        ensures
            final(self).spec_tree_name() == old(self).spec_tree_name(),
            r is Ok ==> final(self).model() == old(self).model().insert(
                seq![TAG_TRACEPOINT_NAME],
                vstd::utf8::encode_utf8(tracepoint@),
            ),
            r is Ok ==> field_str(final(self).model(), TAG_TRACEPOINT_NAME) == Some(tracepoint@),
            r matches Err(e) ==> e is DatabaseError,
    {
        put_str(&mut self.data.db_tree, TAG_TRACEPOINT_NAME, tracepoint)
    }

    /// The tracepoint.
    pub fn get_tracepoint(&self) -> (r: Result<String, BpfmanError>)
        ensures
            r matches Ok(s) ==> field_str(self.model(), TAG_TRACEPOINT_NAME) == Some(s@),
            field_str(self.model(), TAG_TRACEPOINT_NAME) is None ==> r is Err,
            r matches Err(e) ==> e is DatabaseError,
    {
        get_str(&self.data.db_tree, TAG_TRACEPOINT_NAME)
    }

    /// The common attributes.
    pub fn get_data(&self) -> (r: &ProgramData)
        ensures
            r.model() == self.model(),
            r.spec_tree_name() == self.spec_tree_name(),
    {
        &self.data
    }

    /// The common attributes, for writing.
    pub fn get_data_mut(&mut self) -> (r: &mut ProgramData) {
        &mut self.data
    }
}

/// A kernel-probe program: the common attributes plus the probed
/// function, the offset into it, and whether the probe fires on
/// return. A stored retprobe flag is only ever zero or one.
#[derive(Debug)]
pub struct KprobeProgram {
    pub(crate) data: ProgramData,
}

impl KprobeProgram {
    /// What this program's tree holds.
    pub open(crate) spec fn model(&self) -> Map<Seq<u8>, Seq<u8>> {
        self.data.model()
    }

    /// The name of this program's tree in the store.
    pub open(crate) spec fn spec_tree_name(&self) -> Seq<u8> {
        self.data.spec_tree_name()
    }

    /// Stores the fn name.
    pub(crate) fn set_fn_name(&mut self, fn_name: &str) -> (r: Result<(), BpfmanError>)
        ensures
            final(self).spec_tree_name() == old(self).spec_tree_name(),
            r is Ok ==> final(self).model() == old(self).model().insert(
                seq![TAG_KPROBE_FN_NAME],
                vstd::utf8::encode_utf8(fn_name@),
            ),
            r is Ok ==> field_str(final(self).model(), TAG_KPROBE_FN_NAME) == Some(fn_name@),
            r matches Err(e) ==> e is DatabaseError,
    {
        put_str(&mut self.data.db_tree, TAG_KPROBE_FN_NAME, fn_name)
    }

    /// The fn name.
    pub fn get_fn_name(&self) -> (r: Result<String, BpfmanError>)
        ensures
            r matches Ok(s) ==> field_str(self.model(), TAG_KPROBE_FN_NAME) == Some(s@),
            field_str(self.model(), TAG_KPROBE_FN_NAME) is None ==> r is Err,
            r matches Err(e) ==> e is DatabaseError,
    {
        get_str(&self.data.db_tree, TAG_KPROBE_FN_NAME)
    }

    /// Stores the offset.
    pub(crate) fn set_offset(&mut self, offset: u64) -> (r: Result<(), BpfmanError>)
        ensures
            final(self).spec_tree_name() == old(self).spec_tree_name(),
            r is Ok ==> final(self).model() == old(self).model().insert(
                seq![TAG_KPROBE_OFFSET],
                vstd::bytes::spec_u64_to_le_bytes(offset),
            ),
            r is Ok ==> field_u64(final(self).model(), TAG_KPROBE_OFFSET) == Some(offset),
            r matches Err(e) ==> e is DatabaseError,
    {
        put_u64(&mut self.data.db_tree, TAG_KPROBE_OFFSET, offset)
    }

    /// The offset.
    pub fn get_offset(&self) -> (r: Result<u64, BpfmanError>)
        ensures
            r matches Ok(v) ==> field_u64(self.model(), TAG_KPROBE_OFFSET) == Some(v),
            field_u64(self.model(), TAG_KPROBE_OFFSET) is None ==> r is Err,
            r matches Err(e) ==> e is DatabaseError,
    {
        crate::fields::get_u64(&self.data.db_tree, TAG_KPROBE_OFFSET)
    }

    /// Stores whether the probe fires on return: a zero or one byte.
    pub(crate) fn set_retprobe(&mut self, retprobe: bool) -> (r: Result<(), BpfmanError>)
        ensures
            final(self).spec_tree_name() == old(self).spec_tree_name(),
            r is Ok ==> final(self).model() == old(self).model().insert(
                seq![TAG_KPROBE_RETPROBE],
                crate::codec::spec_bool_bytes(retprobe),
            ),
            r is Ok ==> field_bool(final(self).model(), TAG_KPROBE_RETPROBE) == Some(retprobe),
            r matches Err(e) ==> e is DatabaseError,
    {
        put_bool(&mut self.data.db_tree, TAG_KPROBE_RETPROBE, retprobe)
    }

    /// Whether the probe fires on return; never stored reads as
    /// false.
    pub fn get_retprobe(&self) -> (r: Result<bool, BpfmanError>)
        ensures
            r matches Ok(v) ==> (field_bytes(self.model(), TAG_KPROBE_RETPROBE) is Some ==> field_bool(
                self.model(),
                TAG_KPROBE_RETPROBE,
            ) == Some(v)),
            r matches Ok(v) ==> (field_bytes(self.model(), TAG_KPROBE_RETPROBE) is None ==> v == false),
            r matches Err(e) ==> e is DatabaseError,
    {
        get_bool_or_false(&self.data.db_tree, TAG_KPROBE_RETPROBE)
    }

    /// Stores the container pid.
    pub(crate) fn set_container_pid(&mut self, container_pid: i32) -> (r: Result<(), BpfmanError>)
        ensures
            final(self).spec_tree_name() == old(self).spec_tree_name(),
            r is Ok ==> final(self).model() == old(self).model().insert(
                seq![TAG_KPROBE_CONTAINER_PID],
                vstd::bytes::spec_u32_to_le_bytes(spec_i32_bits(container_pid)),
            ),
            r is Ok ==> field_i32(final(self).model(), TAG_KPROBE_CONTAINER_PID) == Some(container_pid),
            r matches Err(e) ==> e is DatabaseError,
    {
        put_i32(&mut self.data.db_tree, TAG_KPROBE_CONTAINER_PID, container_pid)
    }

    /// The container pid, if one was stored.
    pub fn get_container_pid(&self) -> (r: Result<Option<i32>, BpfmanError>)
        ensures
            r matches Ok(o) ==> (field_bytes(self.model(), TAG_KPROBE_CONTAINER_PID) is Some ==> o == field_i32(
                self.model(),
                TAG_KPROBE_CONTAINER_PID,
            )),
            r matches Ok(o) ==> (field_bytes(self.model(), TAG_KPROBE_CONTAINER_PID) is None ==> o is None),
            r matches Err(e) ==> e is DatabaseError,
    {
        crate::fields::get_i32_opt(&self.data.db_tree, TAG_KPROBE_CONTAINER_PID)
    }

    /// The common attributes.
    pub fn get_data(&self) -> (r: &ProgramData)
        ensures
            r.model() == self.model(),
            r.spec_tree_name() == self.spec_tree_name(),
    {
        &self.data
    }

    /// The common attributes, for writing.
    pub fn get_data_mut(&mut self) -> (r: &mut ProgramData) {
        &mut self.data
    }
}

/// A user-probe program: the common attributes plus the target
/// binary, the probed symbol or offset, and whether the probe fires
/// on return.
#[derive(Debug)]
pub struct UprobeProgram {
    pub(crate) data: ProgramData,
}

impl UprobeProgram {
    /// What this program's tree holds.
    pub open(crate) spec fn model(&self) -> Map<Seq<u8>, Seq<u8>> {
        self.data.model()
    }

    /// The name of this program's tree in the store.
    pub open(crate) spec fn spec_tree_name(&self) -> Seq<u8> {
        self.data.spec_tree_name()
    }

    /// Stores the fn name.
    pub(crate) fn set_fn_name(&mut self, fn_name: &str) -> (r: Result<(), BpfmanError>)
        ensures
            final(self).spec_tree_name() == old(self).spec_tree_name(),
            r is Ok ==> final(self).model() == old(self).model().insert(
                seq![TAG_UPROBE_FN_NAME],
                vstd::utf8::encode_utf8(fn_name@),
            ),
            r is Ok ==> field_str(final(self).model(), TAG_UPROBE_FN_NAME) == Some(fn_name@),
            r matches Err(e) ==> e is DatabaseError,
    {
        put_str(&mut self.data.db_tree, TAG_UPROBE_FN_NAME, fn_name)
    }

    /// The fn name, if one was stored.
    pub fn get_fn_name(&self) -> (r: Result<Option<String>, BpfmanError>)
        ensures
            r matches Ok(o) ==> (field_bytes(self.model(), TAG_UPROBE_FN_NAME) is Some ==> (o matches Some(s)
                && field_str(self.model(), TAG_UPROBE_FN_NAME) == Some(s@))),
            r matches Ok(o) ==> (field_bytes(self.model(), TAG_UPROBE_FN_NAME) is None ==> o is None),
            r matches Err(e) ==> e is DatabaseError,
    {
        crate::fields::get_str_opt(&self.data.db_tree, TAG_UPROBE_FN_NAME)
    }

    /// Stores the offset.
    pub(crate) fn set_offset(&mut self, offset: u64) -> (r: Result<(), BpfmanError>)
        ensures
            final(self).spec_tree_name() == old(self).spec_tree_name(),
            r is Ok ==> final(self).model() == old(self).model().insert(
                seq![TAG_UPROBE_OFFSET],
                vstd::bytes::spec_u64_to_le_bytes(offset),
            ),
            r is Ok ==> field_u64(final(self).model(), TAG_UPROBE_OFFSET) == Some(offset),
            r matches Err(e) ==> e is DatabaseError,
    {
        put_u64(&mut self.data.db_tree, TAG_UPROBE_OFFSET, offset)
    }

    /// The offset.
    pub fn get_offset(&self) -> (r: Result<u64, BpfmanError>)
        ensures
            r matches Ok(v) ==> field_u64(self.model(), TAG_UPROBE_OFFSET) == Some(v),
            field_u64(self.model(), TAG_UPROBE_OFFSET) is None ==> r is Err,
            r matches Err(e) ==> e is DatabaseError,
    {
        crate::fields::get_u64(&self.data.db_tree, TAG_UPROBE_OFFSET)
    }

    /// Stores whether the probe fires on return: a zero or one byte.
    pub(crate) fn set_retprobe(&mut self, retprobe: bool) -> (r: Result<(), BpfmanError>)
        ensures
            final(self).spec_tree_name() == old(self).spec_tree_name(),
            r is Ok ==> final(self).model() == old(self).model().insert(
                seq![TAG_UPROBE_RETPROBE],
                crate::codec::spec_bool_bytes(retprobe),
            ),
            r is Ok ==> field_bool(final(self).model(), TAG_UPROBE_RETPROBE) == Some(retprobe),
            r matches Err(e) ==> e is DatabaseError,
    {
        put_bool(&mut self.data.db_tree, TAG_UPROBE_RETPROBE, retprobe)
    }

    /// Whether the probe fires on return; never stored reads as
    /// false.
    pub fn get_retprobe(&self) -> (r: Result<bool, BpfmanError>)
        ensures
            r matches Ok(v) ==> (field_bytes(self.model(), TAG_UPROBE_RETPROBE) is Some ==> field_bool(
                self.model(),
                TAG_UPROBE_RETPROBE,
            ) == Some(v)),
            r matches Ok(v) ==> (field_bytes(self.model(), TAG_UPROBE_RETPROBE) is None ==> v == false),
            r matches Err(e) ==> e is DatabaseError,
    {
        get_bool_or_false(&self.data.db_tree, TAG_UPROBE_RETPROBE)
    }

    /// Stores the container pid.
    pub(crate) fn set_container_pid(&mut self, container_pid: i32) -> (r: Result<(), BpfmanError>)
        ensures
            final(self).spec_tree_name() == old(self).spec_tree_name(),
            r is Ok ==> final(self).model() == old(self).model().insert(
                seq![TAG_UPROBE_CONTAINER_PID],
                vstd::bytes::spec_u32_to_le_bytes(spec_i32_bits(container_pid)),
            ),
            r is Ok ==> field_i32(final(self).model(), TAG_UPROBE_CONTAINER_PID) == Some(container_pid),
            r matches Err(e) ==> e is DatabaseError,
    {
        put_i32(&mut self.data.db_tree, TAG_UPROBE_CONTAINER_PID, container_pid)
    }

    /// The container pid, if one was stored.
    pub fn get_container_pid(&self) -> (r: Result<Option<i32>, BpfmanError>)
        ensures
            r matches Ok(o) ==> (field_bytes(self.model(), TAG_UPROBE_CONTAINER_PID) is Some ==> o == field_i32(
                self.model(),
                TAG_UPROBE_CONTAINER_PID,
            )),
            r matches Ok(o) ==> (field_bytes(self.model(), TAG_UPROBE_CONTAINER_PID) is None ==> o is None),
            r matches Err(e) ==> e is DatabaseError,
    {
        crate::fields::get_i32_opt(&self.data.db_tree, TAG_UPROBE_CONTAINER_PID)
    }

    /// Stores the pid.
    pub(crate) fn set_pid(&mut self, pid: i32) -> (r: Result<(), BpfmanError>)
        ensures
            final(self).spec_tree_name() == old(self).spec_tree_name(),
            r is Ok ==> final(self).model() == old(self).model().insert(
                seq![TAG_UPROBE_PID],
                vstd::bytes::spec_u32_to_le_bytes(spec_i32_bits(pid)),
            ),
            r is Ok ==> field_i32(final(self).model(), TAG_UPROBE_PID) == Some(pid),
            r matches Err(e) ==> e is DatabaseError,
    {
        put_i32(&mut self.data.db_tree, TAG_UPROBE_PID, pid)
    }

    /// The pid, if one was stored.
    pub fn get_pid(&self) -> (r: Result<Option<i32>, BpfmanError>)
        ensures
            r matches Ok(o) ==> (field_bytes(self.model(), TAG_UPROBE_PID) is Some ==> o == field_i32(
                self.model(),
                TAG_UPROBE_PID,
            )),
            r matches Ok(o) ==> (field_bytes(self.model(), TAG_UPROBE_PID) is None ==> o is None),
            r matches Err(e) ==> e is DatabaseError,
    {
        crate::fields::get_i32_opt(&self.data.db_tree, TAG_UPROBE_PID)
    }

    /// Stores the target.
    pub(crate) fn set_target(&mut self, target: &str) -> (r: Result<(), BpfmanError>)
        ensures
            final(self).spec_tree_name() == old(self).spec_tree_name(),
            r is Ok ==> final(self).model() == old(self).model().insert(
                seq![TAG_UPROBE_TARGET],
                vstd::utf8::encode_utf8(target@),
            ),
            r is Ok ==> field_str(final(self).model(), TAG_UPROBE_TARGET) == Some(target@),
            r matches Err(e) ==> e is DatabaseError,
    {
        put_str(&mut self.data.db_tree, TAG_UPROBE_TARGET, target)
    }

    /// The target.
    pub fn get_target(&self) -> (r: Result<String, BpfmanError>)
        ensures
            r matches Ok(s) ==> field_str(self.model(), TAG_UPROBE_TARGET) == Some(s@),
            field_str(self.model(), TAG_UPROBE_TARGET) is None ==> r is Err,
            r matches Err(e) ==> e is DatabaseError,
    {
        get_str(&self.data.db_tree, TAG_UPROBE_TARGET)
    }

    /// The common attributes.
    pub fn get_data(&self) -> (r: &ProgramData)
        ensures
            r.model() == self.model(),
            r.spec_tree_name() == self.spec_tree_name(),
    {
        &self.data
    }

    /// The common attributes, for writing.
    pub fn get_data_mut(&mut self) -> (r: &mut ProgramData) {
        &mut self.data
    }
}

/// A function-entry tracing program: the common attributes plus
/// the traced kernel function.
#[derive(Debug)]
pub struct FentryProgram {
    pub(crate) data: ProgramData,
}

impl FentryProgram {
    /// What this program's tree holds.
    pub open(crate) spec fn model(&self) -> Map<Seq<u8>, Seq<u8>> {
        self.data.model()
    }

    /// The name of this program's tree in the store.
    pub open(crate) spec fn spec_tree_name(&self) -> Seq<u8> {
        self.data.spec_tree_name()
    }

    /// Stores the fn name.
    pub(crate) fn set_fn_name(&mut self, fn_name: &str) -> (r: Result<(), BpfmanError>)
        ensures
            final(self).spec_tree_name() == old(self).spec_tree_name(),
            r is Ok ==> final(self).model() == old(self).model().insert(
                seq![TAG_FENTRY_FN_NAME],
                vstd::utf8::encode_utf8(fn_name@),
            ),
            r is Ok ==> field_str(final(self).model(), TAG_FENTRY_FN_NAME) == Some(fn_name@),
            r matches Err(e) ==> e is DatabaseError,
    {
        put_str(&mut self.data.db_tree, TAG_FENTRY_FN_NAME, fn_name)
    }

    /// The fn name.
    pub fn get_fn_name(&self) -> (r: Result<String, BpfmanError>)
        ensures
            r matches Ok(s) ==> field_str(self.model(), TAG_FENTRY_FN_NAME) == Some(s@),
            field_str(self.model(), TAG_FENTRY_FN_NAME) is None ==> r is Err,
            r matches Err(e) ==> e is DatabaseError,
    {
        get_str(&self.data.db_tree, TAG_FENTRY_FN_NAME)
    }

    /// The common attributes.
    pub fn get_data(&self) -> (r: &ProgramData)
        ensures
            r.model() == self.model(),
            r.spec_tree_name() == self.spec_tree_name(),
    {
        &self.data
    }

    /// The common attributes, for writing.
    pub fn get_data_mut(&mut self) -> (r: &mut ProgramData) {
        &mut self.data
    }
}

/// A function-exit tracing program: the common attributes plus
/// the traced kernel function.
#[derive(Debug)]
pub struct FexitProgram {
    pub(crate) data: ProgramData,
}

impl FexitProgram {
    /// What this program's tree holds.
    pub open(crate) spec fn model(&self) -> Map<Seq<u8>, Seq<u8>> {
        self.data.model()
    }

    /// The name of this program's tree in the store.
    pub open(crate) spec fn spec_tree_name(&self) -> Seq<u8> {
        self.data.spec_tree_name()
    }

    /// Stores the fn name.
    pub(crate) fn set_fn_name(&mut self, fn_name: &str) -> (r: Result<(), BpfmanError>)
        ensures
            final(self).spec_tree_name() == old(self).spec_tree_name(),
            r is Ok ==> final(self).model() == old(self).model().insert(
                seq![TAG_FEXIT_FN_NAME],
                vstd::utf8::encode_utf8(fn_name@),
            ),
            r is Ok ==> field_str(final(self).model(), TAG_FEXIT_FN_NAME) == Some(fn_name@),
            r matches Err(e) ==> e is DatabaseError,
    {
        put_str(&mut self.data.db_tree, TAG_FEXIT_FN_NAME, fn_name)
    }

    /// The fn name.
    pub fn get_fn_name(&self) -> (r: Result<String, BpfmanError>)
        ensures
            r matches Ok(s) ==> field_str(self.model(), TAG_FEXIT_FN_NAME) == Some(s@),
            field_str(self.model(), TAG_FEXIT_FN_NAME) is None ==> r is Err,
            r matches Err(e) ==> e is DatabaseError,
    {
        get_str(&self.data.db_tree, TAG_FEXIT_FN_NAME)
    }

    /// The common attributes.
    pub fn get_data(&self) -> (r: &ProgramData)
        ensures
            r.model() == self.model(),
            r.spec_tree_name() == self.spec_tree_name(),
    {
        &self.data
    }

    /// The common attributes, for writing.
    pub fn get_data_mut(&mut self) -> (r: &mut ProgramData) {
        &mut self.data
    }
}

impl TracepointProgram {
    /// Builds a tracepoint program over its attribute store.
    pub fn new(data: ProgramData, tracepoint: &str) -> (r: Result<TracepointProgram, BpfmanError>)
        ensures
            r matches Ok(p) ==> field_str(p.model(), TAG_TRACEPOINT_NAME) == Some(tracepoint@),
            r matches Ok(p) ==> field_u32(p.model(), crate::data::TAG_KIND) == Some(
                crate::types::spec_program_type_u32(ProgramType::Tracepoint),
            ),
            r matches Ok(p) ==> (forall|k: Seq<u8>|
                (k != seq![TAG_TRACEPOINT_NAME] && k != seq![crate::data::TAG_KIND]) ==> ((#[trigger] p.model().contains_key(k)) == data.model().contains_key(
                    k,
                ) && (data.model().contains_key(k) ==> p.model()[k] == data.model()[k]))),
            r matches Err(e) ==> e is DatabaseError,
    {
        let mut tp_prog = TracepointProgram { data };
        tp_prog.set_tracepoint(tracepoint)?;
        put_u32(&mut tp_prog.data.db_tree, crate::data::TAG_KIND, ProgramType::Tracepoint.to_u32())?;
        proof {
            assert(seq![TAG_TRACEPOINT_NAME][0] == TAG_TRACEPOINT_NAME);
            assert(seq![crate::data::TAG_KIND][0] == crate::data::TAG_KIND);
        }
        Ok(tp_prog)
    }
}

impl KprobeProgram {
    /// Builds a kernel-probe program over its attribute store.
    pub fn new(
        data: ProgramData,
        fn_name: &str,
        offset: u64,
        retprobe: bool,
        container_pid: Option<i32>,
    ) -> (r: Result<KprobeProgram, BpfmanError>)
        ensures
            r matches Ok(p) ==> field_str(p.model(), TAG_KPROBE_FN_NAME) == Some(fn_name@),
            r matches Ok(p) ==> field_u64(p.model(), TAG_KPROBE_OFFSET) == Some(offset),
            r matches Ok(p) ==> field_bool(p.model(), TAG_KPROBE_RETPROBE) == Some(retprobe),
            r matches Ok(p) ==> (container_pid matches Some(c) ==> field_i32(
                p.model(),
                TAG_KPROBE_CONTAINER_PID,
            ) == Some(c)),
            r matches Ok(p) ==> field_u32(p.model(), crate::data::TAG_KIND) == Some(
                crate::types::spec_program_type_u32(ProgramType::Probe),
            ),
            r matches Ok(p) ==> (forall|k: Seq<u8>|
                (k != seq![TAG_KPROBE_FN_NAME] && k != seq![TAG_KPROBE_OFFSET] && k != seq![TAG_KPROBE_RETPROBE] && k != seq![TAG_KPROBE_CONTAINER_PID] && k != seq![crate::data::TAG_KIND]) ==> ((#[trigger] p.model().contains_key(k)) == data.model().contains_key(
                    k,
                ) && (data.model().contains_key(k) ==> p.model()[k] == data.model()[k]))),
            r matches Ok(p) ==> (container_pid is None ==> crate::fields::tag_kept(
                data.model(),
                p.model(),
                TAG_KPROBE_CONTAINER_PID,
            )),
            r matches Err(e) ==> e is DatabaseError,
    {
        let mut kprobe_prog = KprobeProgram { data };
        kprobe_prog.set_fn_name(fn_name)?;
        kprobe_prog.set_offset(offset)?;
        kprobe_prog.set_retprobe(retprobe)?;
        match container_pid {
            Some(c) => {
                kprobe_prog.set_container_pid(c)?;
            },
            None => {},
        }
        put_u32(&mut kprobe_prog.data.db_tree, crate::data::TAG_KIND, ProgramType::Probe.to_u32())?;
        proof {
            assert(seq![TAG_KPROBE_FN_NAME][0] == TAG_KPROBE_FN_NAME);
            assert(seq![TAG_KPROBE_OFFSET][0] == TAG_KPROBE_OFFSET);
            assert(seq![TAG_KPROBE_RETPROBE][0] == TAG_KPROBE_RETPROBE);
            assert(seq![TAG_KPROBE_CONTAINER_PID][0] == TAG_KPROBE_CONTAINER_PID);
            assert(seq![crate::data::TAG_KIND][0] == crate::data::TAG_KIND);
        }
        Ok(kprobe_prog)
    }
}

impl UprobeProgram {
    /// Builds a user-probe program over its attribute store.
    pub fn new(
        data: ProgramData,
        fn_name: Option<String>,
        offset: u64,
        target: &str,
        retprobe: bool,
        pid: Option<i32>,
        container_pid: Option<i32>,
    ) -> (r: Result<UprobeProgram, BpfmanError>)
        ensures
            r matches Ok(p) ==> (fn_name matches Some(f) ==> field_str(
                p.model(),
                TAG_UPROBE_FN_NAME,
            ) == Some(f@)),
            r matches Ok(p) ==> field_u64(p.model(), TAG_UPROBE_OFFSET) == Some(offset),
            r matches Ok(p) ==> field_str(p.model(), TAG_UPROBE_TARGET) == Some(target@),
            r matches Ok(p) ==> field_bool(p.model(), TAG_UPROBE_RETPROBE) == Some(retprobe),
            r matches Ok(p) ==> (pid matches Some(v) ==> field_i32(p.model(), TAG_UPROBE_PID)
                == Some(v)),
            r matches Ok(p) ==> (container_pid matches Some(c) ==> field_i32(
                p.model(),
                TAG_UPROBE_CONTAINER_PID,
            ) == Some(c)),
            r matches Ok(p) ==> field_u32(p.model(), crate::data::TAG_KIND) == Some(
                crate::types::spec_program_type_u32(ProgramType::Probe),
            ),
            r matches Ok(p) ==> (forall|k: Seq<u8>|
                (k != seq![TAG_UPROBE_FN_NAME] && k != seq![TAG_UPROBE_OFFSET] && k != seq![TAG_UPROBE_RETPROBE] && k != seq![TAG_UPROBE_CONTAINER_PID] && k != seq![TAG_UPROBE_PID] && k != seq![TAG_UPROBE_TARGET] && k != seq![crate::data::TAG_KIND]) ==> ((#[trigger] p.model().contains_key(k)) == data.model().contains_key(
                    k,
                ) && (data.model().contains_key(k) ==> p.model()[k] == data.model()[k]))),
            r matches Ok(p) ==> (fn_name is None ==> crate::fields::tag_kept(
                data.model(),
                p.model(),
                TAG_UPROBE_FN_NAME,
            )),
            r matches Ok(p) ==> (container_pid is None ==> crate::fields::tag_kept(
                data.model(),
                p.model(),
                TAG_UPROBE_CONTAINER_PID,
            )),
            r matches Ok(p) ==> (pid is None ==> crate::fields::tag_kept(
                data.model(),
                p.model(),
                TAG_UPROBE_PID,
            )),
            r matches Err(e) ==> e is DatabaseError,
    {
        let mut uprobe_prog = UprobeProgram { data };
        match &fn_name {
            Some(f) => {
                uprobe_prog.set_fn_name(f.as_str())?;
            },
            None => {},
        }
        uprobe_prog.set_offset(offset)?;
        uprobe_prog.set_retprobe(retprobe)?;
        match container_pid {
            Some(c) => {
                uprobe_prog.set_container_pid(c)?;
            },
            None => {},
        }
        match pid {
            Some(v) => {
                uprobe_prog.set_pid(v)?;
            },
            None => {},
        }
        uprobe_prog.set_target(target)?;
        put_u32(&mut uprobe_prog.data.db_tree, crate::data::TAG_KIND, ProgramType::Probe.to_u32())?;
        proof {
            assert(seq![TAG_UPROBE_FN_NAME][0] == TAG_UPROBE_FN_NAME);
            assert(seq![TAG_UPROBE_OFFSET][0] == TAG_UPROBE_OFFSET);
            assert(seq![TAG_UPROBE_RETPROBE][0] == TAG_UPROBE_RETPROBE);
            assert(seq![TAG_UPROBE_CONTAINER_PID][0] == TAG_UPROBE_CONTAINER_PID);
            assert(seq![TAG_UPROBE_PID][0] == TAG_UPROBE_PID);
            assert(seq![TAG_UPROBE_TARGET][0] == TAG_UPROBE_TARGET);
            assert(seq![crate::data::TAG_KIND][0] == crate::data::TAG_KIND);
        }
        Ok(uprobe_prog)
    }
}

impl FentryProgram {
    /// Builds a function-entry tracing program over its attribute
    /// store.
    pub fn new(data: ProgramData, fn_name: &str) -> (r: Result<FentryProgram, BpfmanError>)
        ensures
            r matches Ok(p) ==> field_str(p.model(), TAG_FENTRY_FN_NAME) == Some(fn_name@),
            r matches Ok(p) ==> field_u32(p.model(), crate::data::TAG_KIND) == Some(
                crate::types::spec_program_type_u32(ProgramType::Tracing),
            ),
            r matches Ok(p) ==> (forall|k: Seq<u8>|
                (k != seq![TAG_FENTRY_FN_NAME] && k != seq![crate::data::TAG_KIND]) ==> ((#[trigger] p.model().contains_key(k)) == data.model().contains_key(
                    k,
                ) && (data.model().contains_key(k) ==> p.model()[k] == data.model()[k]))),
            r matches Err(e) ==> e is DatabaseError,
    {
        let mut fentry_prog = FentryProgram { data };
        fentry_prog.set_fn_name(fn_name)?;
        put_u32(&mut fentry_prog.data.db_tree, crate::data::TAG_KIND, ProgramType::Tracing.to_u32())?;
        proof {
            assert(seq![TAG_FENTRY_FN_NAME][0] == TAG_FENTRY_FN_NAME);
            assert(seq![crate::data::TAG_KIND][0] == crate::data::TAG_KIND);
        }
        Ok(fentry_prog)
    }
}

impl FexitProgram {
    /// Builds a function-exit tracing program over its attribute
    /// store.
    pub fn new(data: ProgramData, fn_name: &str) -> (r: Result<FexitProgram, BpfmanError>)
        ensures
            r matches Ok(p) ==> field_str(p.model(), TAG_FEXIT_FN_NAME) == Some(fn_name@),
            r matches Ok(p) ==> field_u32(p.model(), crate::data::TAG_KIND) == Some(
                crate::types::spec_program_type_u32(ProgramType::Tracing),
            ),
            r matches Ok(p) ==> (forall|k: Seq<u8>|
                (k != seq![TAG_FEXIT_FN_NAME] && k != seq![crate::data::TAG_KIND]) ==> ((#[trigger] p.model().contains_key(k)) == data.model().contains_key(
                    k,
                ) && (data.model().contains_key(k) ==> p.model()[k] == data.model()[k]))),
            r matches Err(e) ==> e is DatabaseError,
    {
        let mut fexit_prog = FexitProgram { data };
        fexit_prog.set_fn_name(fn_name)?;
        put_u32(&mut fexit_prog.data.db_tree, crate::data::TAG_KIND, ProgramType::Tracing.to_u32())?;
        proof {
            assert(seq![TAG_FEXIT_FN_NAME][0] == TAG_FEXIT_FN_NAME);
            assert(seq![crate::data::TAG_KIND][0] == crate::data::TAG_KIND);
        }
        Ok(fexit_prog)
    }
}

/// The hook a dispatcher serves: an interface, and for TC also a
/// direction.
#[derive(Debug, Eq, PartialEq, Copy, Clone, Hash, Structural)]
pub struct DispatcherInfo(pub u32, pub Option<Direction>);

/// The identity of a dispatcher: its hook type and its hook.
#[derive(Debug, Eq, PartialEq, Copy, Clone, Hash, Structural)]
pub enum DispatcherId {
    Xdp(DispatcherInfo),
    Tc(DispatcherInfo),
}

/// One client program of any supported kind, or the attributes of a
/// program the daemon does not manage.
#[derive(Debug)]
pub enum Program {
    Xdp(XdpProgram),
    Tc(TcProgram),
    Tracepoint(TracepointProgram),
    Kprobe(KprobeProgram),
    Uprobe(UprobeProgram),
    Fentry(FentryProgram),
    Fexit(FexitProgram),
    Unsupported(ProgramData),
}

impl Program {
    /// What this program's tree holds.
    pub open(crate) spec fn model(&self) -> Map<Seq<u8>, Seq<u8>> {
        self.get_data_spec().model()
    }

    /// The common attributes, in spec.
    pub open(crate) spec fn get_data_spec(&self) -> &ProgramData {
        match self {
            Program::Xdp(p) => &p.data,
            Program::Tc(p) => &p.data,
            Program::Tracepoint(p) => &p.data,
            Program::Kprobe(p) => &p.data,
            Program::Uprobe(p) => &p.data,
            Program::Fentry(p) => &p.data,
            Program::Fexit(p) => &p.data,
            Program::Unsupported(p) => p,
        }
    }

    /// The daemon's own view of the program's kind. An XDP or TC
    /// program answers its daemon kind although the kernel reports
    /// the dispatcher-extension type for it; a program the daemon
    /// does not manage answers the kernel's recorded type.
    pub fn kind(&self) -> (r: Result<ProgramType, BpfmanError>)
        ensures
            r matches Ok(k) ==> match self {
                Program::Xdp(_) => k == ProgramType::Xdp,
                Program::Tc(_) => k == ProgramType::Tc,
                Program::Tracepoint(_) => k == ProgramType::Tracepoint,
                Program::Kprobe(_) => k == ProgramType::Probe,
                Program::Uprobe(_) => k == ProgramType::Probe,
                Program::Fentry(_) => k == ProgramType::Tracing,
                Program::Fexit(_) => k == ProgramType::Tracing,
                Program::Unsupported(_) => (field_u32(
                    self.model(),
                    crate::data::TAG_KERNEL_PROGRAM_TYPE,
                ) matches Some(v) && crate::types::spec_program_type_from_u32(v) == Some(k)),
            },
            (*self) is Unsupported && field_u32(
                self.model(),
                crate::data::TAG_KERNEL_PROGRAM_TYPE,
            ) is None ==> r is Err,
    {
        match self {
            Program::Xdp(_) => Ok(ProgramType::Xdp),
            Program::Tc(_) => Ok(ProgramType::Tc),
            Program::Tracepoint(_) => Ok(ProgramType::Tracepoint),
            Program::Kprobe(_) => Ok(ProgramType::Probe),
            Program::Uprobe(_) => Ok(ProgramType::Probe),
            Program::Fentry(_) => Ok(ProgramType::Tracing),
            Program::Fexit(_) => Ok(ProgramType::Tracing),
            Program::Unsupported(p) => {
                let v = p.get_kernel_program_type()?;
                match ProgramType::from_u32(v) {
                    Ok(k) => Ok(k),
                    Err(e) => Err(BpfmanError::Parse(e)),
                }
            },
        }
    }

    /// The dispatcher this program belongs behind: XDP and TC
    /// programs name their hook; every other kind attaches directly
    /// and has none.
    pub fn dispatcher_id(&self) -> (r: Result<Option<DispatcherId>, BpfmanError>)
        ensures
            r matches Ok(o) ==> match self {
                Program::Xdp(p) => (o matches Some(d) && d matches DispatcherId::Xdp(info)
                    && field_u32(p.model(), TAG_IF_INDEX) == Some(info.0) && info.1 is None),
                Program::Tc(p) => (o matches Some(d) && d matches DispatcherId::Tc(info)
                    && field_u32(p.model(), TAG_IF_INDEX) == Some(info.0) && (
                info.1 matches Some(dir) ==> (field_u32(p.model(), TAG_DIRECTION) matches Some(v)
                    && spec_direction_from_u32(v) == Some(dir)))),
                _ => o is None,
            },
            (*self) is Xdp ==> (r matches Ok(o) ==> o is Some),
            (*self) is Tc ==> (r matches Ok(o) ==> o is Some),
    {
        match self {
            Program::Xdp(p) => match p.get_if_index()? {
                Some(idx) => Ok(Some(DispatcherId::Xdp(DispatcherInfo(idx, None)))),
                None => Err(
                    BpfmanError::Error(
                        String::from_str("interface index is not known for this program"),
                    ),
                ),
            },
            Program::Tc(p) => {
                let idx = match p.get_if_index()? {
                    Some(idx) => idx,
                    None => {
                        return Err(
                            BpfmanError::Error(
                                String::from_str("interface index is not known for this program"),
                            ),
                        );
                    },
                };
                let dir = p.get_direction()?;
                Ok(Some(DispatcherId::Tc(DispatcherInfo(idx, Some(dir)))))
            },
            _ => Ok(None),
        }
    }

    /// The common attributes.
    pub fn get_data(&self) -> (r: &ProgramData)
        ensures
            r == self.get_data_spec(),
    {
        match self {
            Program::Xdp(p) => &p.data,
            Program::Tc(p) => &p.data,
            Program::Tracepoint(p) => &p.data,
            Program::Kprobe(p) => &p.data,
            Program::Uprobe(p) => &p.data,
            Program::Fentry(p) => &p.data,
            Program::Fexit(p) => &p.data,
            Program::Unsupported(p) => p,
        }
    }

    /// The common attributes, for writing.
    pub fn get_data_mut(&mut self) -> (r: &mut ProgramData) {
        match self {
            Program::Xdp(p) => &mut p.data,
            Program::Tc(p) => &mut p.data,
            Program::Tracepoint(p) => &mut p.data,
            Program::Kprobe(p) => &mut p.data,
            Program::Uprobe(p) => &mut p.data,
            Program::Fentry(p) => &mut p.data,
            Program::Fexit(p) => &mut p.data,
            Program::Unsupported(p) => p,
        }
    }

    /// Whether the program is attached: meaningful for the chained
    /// kinds, and false for every other.
    pub fn attached(&self) -> (r: Result<bool, BpfmanError>)
        ensures
            r matches Ok(v) ==> match self {
                Program::Xdp(p) => (field_bytes(p.model(), TAG_ATTACHED) is Some ==> field_bool(
                    p.model(),
                    TAG_ATTACHED,
                ) == Some(v)) && (field_bytes(p.model(), TAG_ATTACHED) is None ==> v == false),
                Program::Tc(p) => (field_bytes(p.model(), TAG_ATTACHED) is Some ==> field_bool(
                    p.model(),
                    TAG_ATTACHED,
                ) == Some(v)) && (field_bytes(p.model(), TAG_ATTACHED) is None ==> v == false),
                _ => v == false,
            },
    {
        match self {
            Program::Xdp(p) => p.get_attached(),
            Program::Tc(p) => p.get_attached(),
            _ => Ok(false),
        }
    }

    /// Marks a chained program attached; the other kinds carry no
    /// mark.
    pub fn set_attached(&mut self) -> (r: Result<(), BpfmanError>)
        ensures
            r is Ok ==> match *final(self) {
                Program::Xdp(p) => field_bool(p.model(), TAG_ATTACHED) == Some(true),
                Program::Tc(p) => field_bool(p.model(), TAG_ATTACHED) == Some(true),
                _ => true,
            },
    {
        match self {
            Program::Xdp(p) => p.set_attached(true),
            Program::Tc(p) => p.set_attached(true),
            _ => Ok(()),
        }
    }

    /// Stores a chained program's position in its chain; the other
    /// kinds stand in no chain.
    pub fn set_position(&mut self, pos: usize) -> (r: Result<(), BpfmanError>)
        ensures
            r is Ok ==> match *final(self) {
                Program::Xdp(p) => field_u64(p.model(), TAG_CURRENT_POSITION) == Some(pos as u64),
                Program::Tc(p) => field_u64(p.model(), TAG_CURRENT_POSITION) == Some(pos as u64),
                _ => false,
            },
            (*old(self)) is Xdp || (*old(self)) is Tc || r is Err,
    {
        match self {
            Program::Xdp(p) => p.set_current_position(pos),
            Program::Tc(p) => p.set_current_position(pos),
            _ => Err(
                BpfmanError::Error(
                    String::from_str("cannot set position on programs other than TC or XDP"),
                ),
            ),
        }
    }

    /// The resolved interface index of a chained program.
    pub fn if_index(&self) -> (r: Result<Option<u32>, BpfmanError>)
        ensures
            (*self) is Xdp || (*self) is Tc || r is Err,
            r matches Ok(o) ==> match self {
                Program::Xdp(p) => (field_bytes(p.model(), TAG_IF_INDEX) is Some ==> o
                    == field_u32(p.model(), TAG_IF_INDEX)),
                Program::Tc(p) => (field_bytes(p.model(), TAG_IF_INDEX) is Some ==> o == field_u32(
                    p.model(),
                    TAG_IF_INDEX,
                )),
                _ => true,
            },
    {
        match self {
            Program::Xdp(p) => p.get_if_index(),
            Program::Tc(p) => p.get_if_index(),
            _ => Err(
                BpfmanError::Error(
                    String::from_str("cannot get if_index on programs other than TC or XDP"),
                ),
            ),
        }
    }

    /// Stores the resolved interface index of a chained program.
    pub fn set_if_index(&mut self, if_index: u32) -> (r: Result<(), BpfmanError>)
        ensures
            r is Ok ==> match *final(self) {
                Program::Xdp(p) => field_u32(p.model(), TAG_IF_INDEX) == Some(if_index),
                Program::Tc(p) => field_u32(p.model(), TAG_IF_INDEX) == Some(if_index),
                _ => false,
            },
            (*old(self)) is Xdp || (*old(self)) is Tc || r is Err,
    {
        match self {
            Program::Xdp(p) => p.set_if_index(if_index),
            Program::Tc(p) => p.set_if_index(if_index),
            _ => Err(
                BpfmanError::Error(
                    String::from_str("cannot set if_index on programs other than TC or XDP"),
                ),
            ),
        }
    }

    /// The interface name of a chained program.
    pub fn if_name(&self) -> (r: Result<String, BpfmanError>)
        ensures
            (*self) is Xdp || (*self) is Tc || r is Err,
            r matches Ok(s) ==> match self {
                Program::Xdp(p) => field_str(p.model(), TAG_IFACE) == Some(s@),
                Program::Tc(p) => field_str(p.model(), TAG_IFACE) == Some(s@),
                _ => false,
            },
    {
        match self {
            Program::Xdp(p) => p.get_iface(),
            Program::Tc(p) => p.get_iface(),
            _ => Err(
                BpfmanError::Error(
                    String::from_str("cannot get interface on programs other than TC or XDP"),
                ),
            ),
        }
    }

    /// The chain priority of a chained program.
    pub fn priority(&self) -> (r: Result<i32, BpfmanError>)
        ensures
            (*self) is Xdp || (*self) is Tc || r is Err,
            r matches Ok(v) ==> match self {
                Program::Xdp(p) => field_i32(p.model(), TAG_PRIORITY) == Some(v),
                Program::Tc(p) => field_i32(p.model(), TAG_PRIORITY) == Some(v),
                _ => false,
            },
    {
        match self {
            Program::Xdp(p) => p.get_priority(),
            Program::Tc(p) => p.get_priority(),
            _ => Err(
                BpfmanError::Error(
                    String::from_str("cannot get priority on programs other than TC or XDP"),
                ),
            ),
        }
    }

    /// The traffic direction: present exactly for TC programs.
    pub fn direction(&self) -> (r: Result<Option<Direction>, BpfmanError>)
        ensures
            r matches Ok(o) ==> match self {
                Program::Tc(p) => (o matches Some(d) && field_u32(
                    p.model(),
                    TAG_DIRECTION,
                ) matches Some(v) && spec_direction_from_u32(v) == Some(d)),
                _ => o is None,
            },
    {
        match self {
            Program::Tc(p) => {
                let d = p.get_direction()?;
                Ok(Some(d))
            },
            _ => Ok(None),
        }
    }

    /// Removes the program's tree from the store. The caller is
    /// responsible for the program's pins on the BPF filesystem.
    pub fn delete(&self, root_db: &crate::store::Store) -> (r: Result<(), BpfmanError>)
        ensures
            r matches Err(e) ==> e is DatabaseError,
    {
        let name = crate::store::sled_tree_name(&self.get_data().db_tree);
        root_db.drop_tree(name.as_slice())?;
        Ok(())
    }

    /// Rebuilds a program from its tree, after checking that the
    /// tree's recorded id is the expected one: the stored kind picks
    /// the variant, a probe is a user probe exactly when a user-probe
    /// offset was stored, and a tracing program is a function-entry
    /// program exactly when a function-entry name was stored.
    pub fn new_from_db(id: u32, tree: sled::Tree) -> (r: Result<Program, BpfmanError>)
        ensures
            r matches Ok(p) ==> field_u32(tree_model(tree), crate::data::TAG_ID) == Some(id),
            r matches Ok(p) ==> match p {
                Program::Xdp(_) => field_u32(tree_model(tree), crate::data::TAG_KIND) == Some(
                    crate::types::spec_program_type_u32(ProgramType::Xdp),
                ),
                Program::Tc(_) => field_u32(tree_model(tree), crate::data::TAG_KIND) == Some(
                    crate::types::spec_program_type_u32(ProgramType::Tc),
                ),
                Program::Tracepoint(_) => field_u32(tree_model(tree), crate::data::TAG_KIND)
                    == Some(crate::types::spec_program_type_u32(ProgramType::Tracepoint)),
                Program::Uprobe(_) => field_u32(tree_model(tree), crate::data::TAG_KIND) == Some(
                    crate::types::spec_program_type_u32(ProgramType::Probe),
                ) && field_bytes(tree_model(tree), TAG_UPROBE_OFFSET) is Some,
                Program::Kprobe(_) => field_u32(tree_model(tree), crate::data::TAG_KIND) == Some(
                    crate::types::spec_program_type_u32(ProgramType::Probe),
                ) && field_bytes(tree_model(tree), TAG_UPROBE_OFFSET) is None,
                Program::Fentry(_) => field_u32(tree_model(tree), crate::data::TAG_KIND) == Some(
                    crate::types::spec_program_type_u32(ProgramType::Tracing),
                ) && field_bytes(tree_model(tree), TAG_FENTRY_FN_NAME) is Some,
                Program::Fexit(_) => field_u32(tree_model(tree), crate::data::TAG_KIND) == Some(
                    crate::types::spec_program_type_u32(ProgramType::Tracing),
                ) && field_bytes(tree_model(tree), TAG_FENTRY_FN_NAME) is None,
                Program::Unsupported(_) => false,
            },
            field_u32(tree_model(tree), crate::data::TAG_ID) != Some(id) ==> r is Err,
    {
        let data = ProgramData::new_empty(tree);
        let stored = data.get_id()?;
        if stored != id {
            return Err(
                BpfmanError::Error(
                    String::from_str(
                        "program id does not match database id: program is not fully loaded",
                    ),
                ),
            );
        }
        let kind = match data.get_kind()? {
            Some(k) => k,
            None => {
                return Err(BpfmanError::Error(String::from_str("unsupported program type")));
            },
        };
        match kind {
            ProgramType::Xdp => Ok(Program::Xdp(XdpProgram { data })),
            ProgramType::Tc => Ok(Program::Tc(TcProgram { data })),
            ProgramType::Tracepoint => Ok(Program::Tracepoint(TracepointProgram { data })),
            ProgramType::Probe => {
                match crate::fields::get_bytes_opt(&data.db_tree, TAG_UPROBE_OFFSET)? {
                    Some(_) => Ok(Program::Uprobe(UprobeProgram { data })),
                    None => Ok(Program::Kprobe(KprobeProgram { data })),
                }
            },
            ProgramType::Tracing => {
                match crate::fields::get_bytes_opt(&data.db_tree, TAG_FENTRY_FN_NAME)? {
                    Some(_) => Ok(Program::Fentry(FentryProgram { data })),
                    None => Ok(Program::Fexit(FexitProgram { data })),
                }
            },
            _ => Err(BpfmanError::Error(String::from_str("unsupported program type"))),
        }
    }
}


} // verus!
