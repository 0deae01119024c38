//! The dispatcher engine, modelled over plain values: for each
//! (interface, direction) hook, the ordered chain of client programs
//! and the revisioned dispatcher serving it, in two tables — what
//! the persistent store holds, and what is attached in the kernel.
//! Adding and removing a program either completes in both tables or
//! leaves both as they were; recovery rebuilds the kernel table from
//! the store.

use vstd::prelude::*;

use crate::chain::{
    chain_order, chain_sorted, insert_entry, lemma_chain_canonical, lemma_filter_keeps_order,
    position_of, remove_entry, ChainEntry, DISPATCHER_SLOTS,
};
use crate::errors::BpfmanError;
use crate::fields::{field_u32, field_u32s};
use crate::store::{tree_model, tree_name_of};
use crate::types::Direction;

verus! {

/// The hook a dispatcher serves: an interface index and, for TC, a
/// direction.
#[derive(Copy, Clone, Debug, Eq, PartialEq, Structural)]
pub struct DispatcherKey {
    pub if_index: u32,
    pub direction: Option<Direction>,
}

/// One dispatcher: its monotonic revision (wraps are not
/// observable) and the ordered chain of members it tail-calls.
#[derive(Debug)]
pub struct Dispatcher {
    pub revision: u32,
    pub chain: Vec<ChainEntry>,
}

/// What a dispatcher table holds, as a map from hooks to a revision
/// and a chain.
pub open spec fn table_view(s: Seq<(DispatcherKey, Dispatcher)>) -> Map<
    DispatcherKey,
    (u32, Seq<ChainEntry>),
>
    decreases s.len(),
{
    if s.len() == 0 {
        Map::empty()
    } else {
        table_view(s.drop_last()).insert(
            s.last().0,
            (s.last().1.revision, s.last().1.chain@),
        )
    }
}

/// Whether a table holds each hook at most once and each chain in
/// chain order.
pub open spec fn table_wf(s: Seq<(DispatcherKey, Dispatcher)>) -> bool {
    &&& forall|i: int, j: int| 0 <= i < j < s.len() ==> (#[trigger] s[i]).0 != (#[trigger] s[j]).0
    &&& forall|i: int| 0 <= i < s.len() ==> chain_sorted((#[trigger] s[i]).1.chain@)
}

/// In a well-formed table, an entry's position speaks for the map.
proof fn lemma_table_lookup(s: Seq<(DispatcherKey, Dispatcher)>, k: DispatcherKey)
    requires
        forall|i: int, j: int| 0 <= i < j < s.len() ==> (#[trigger] s[i]).0 != (#[trigger] s[j]).0,
    ensures
        table_view(s).contains_key(k) <==> exists|i: int| 0 <= i < s.len() && (#[trigger] s[i]).0
            == k,
        forall|i: int|
            0 <= i < s.len() && (#[trigger] s[i]).0 == k ==> table_view(s)[k] == (
            s[i].1.revision,
            s[i].1.chain@,
        ),
    decreases s.len(),
{
    if s.len() > 0 {
        assert forall|i: int, j: int|
            0 <= i < j < s.drop_last().len() implies (#[trigger] s.drop_last()[i]).0 != (
        #[trigger] s.drop_last()[j]).0 by {
            assert(s[i].0 != s[j].0);
        }
        lemma_table_lookup(s.drop_last(), k);
        if s.last().0 == k {
            assert forall|i: int| 0 <= i < s.len() && (#[trigger] s[i]).0 == k implies i == s.len()
                - 1 by {
                if i < s.len() - 1 {
                    assert(s[i].0 != s[s.len() - 1].0);
                }
            }
        } else {
            assert(forall|i: int|
                0 <= i < s.len() - 1 ==> (#[trigger] s[i]).0 == s.drop_last()[i].0);
        }
    }
}

/// The two dispatcher tables the daemon lives by: what the
/// persistent store holds, and what is attached in the kernel. A
/// third list records dispatcher objects left loaded but unattached
/// by an interrupted swap.
#[derive(Debug)]
pub struct World {
    pub durable: Vec<(DispatcherKey, Dispatcher)>,
    pub attached: Vec<(DispatcherKey, Dispatcher)>,
    pub orphans: Vec<DispatcherKey>,
}

impl World {
    /// What the store holds.
    pub open spec fn durable_view(&self) -> Map<DispatcherKey, (u32, Seq<ChainEntry>)> {
        table_view(self.durable@)
    }

    /// What the kernel holds.
    pub open spec fn attached_view(&self) -> Map<DispatcherKey, (u32, Seq<ChainEntry>)> {
        table_view(self.attached@)
    }

    /// Well-formed, with no request in flight: distinct hooks,
    /// ordered chains, store and kernel in agreement, no orphans.
    pub open spec fn quiescent(&self) -> bool {
        &&& table_wf(self.durable@)
        &&& table_wf(self.attached@)
        &&& self.durable_view() == self.attached_view()
        &&& self.orphans@.len() == 0
    }

    /// An empty world: nothing stored, nothing attached.
    pub fn new() -> (r: World)
        ensures
            r.quiescent(),
            r.durable_view() == Map::<DispatcherKey, (u32, Seq<ChainEntry>)>::empty(),
    {
        World { durable: Vec::new(), attached: Vec::new(), orphans: Vec::new() }
    }

    /// The chain at a hook: the members in chain order, empty when
    /// no dispatcher serves the hook.
    pub fn chain_at(&self, key: &DispatcherKey) -> (r: Vec<ChainEntry>)
        requires
            table_wf(self.durable@),
        ensures
            r@ == spec_chain_at(self.durable_view(), *key),
            chain_sorted(r@),
    {
        proof {
            lemma_table_lookup(self.durable@, *key);
        }
        let mut i: usize = 0;
        while i < self.durable.len()
            invariant
                0 <= i <= self.durable@.len(),
                table_wf(self.durable@),
                forall|j: int| 0 <= j < i ==> (#[trigger] self.durable@[j]).0 != *key,
            decreases self.durable@.len() - i,
        {
            if self.durable[i].0 == *key {
                let mut out: Vec<ChainEntry> = Vec::new();
                let d = &self.durable[i].1;
                let mut j: usize = 0;
                while j < d.chain.len()
                    invariant
                        0 <= j <= d.chain@.len(),
                        out@ == d.chain@.take(j as int),
                    decreases d.chain@.len() - j,
                {
                    out.push(d.chain[j]);
                    proof {
                        assert(d.chain@.take(j + 1) =~= d.chain@.take(j as int).push(
                            d.chain@[j as int],
                        ));
                    }
                    j = j + 1;
                }
                proof {
                    assert(d.chain@.take(d.chain@.len() as int) =~= d.chain@);
                    lemma_table_lookup(self.durable@, *key);
                }
                return out;
            }
            i = i + 1;
        }
        proof {
            lemma_table_lookup(self.durable@, *key);
        }
        Vec::new()
    }

    /// The revision of the dispatcher at a hook, if one serves it.
    pub fn revision_at(&self, key: &DispatcherKey) -> (r: Option<u32>)
        requires
            table_wf(self.durable@),
        ensures
            r matches Some(v) ==> self.durable_view().contains_key(*key) && self.durable_view()[
                *key
            ].0 == v,
            r is None ==> !self.durable_view().contains_key(*key),
    {
        proof {
            lemma_table_lookup(self.durable@, *key);
        }
        let mut i: usize = 0;
        while i < self.durable.len()
            invariant
                0 <= i <= self.durable@.len(),
                table_wf(self.durable@),
                forall|j: int| 0 <= j < i ==> (#[trigger] self.durable@[j]).0 != *key,
            decreases self.durable@.len() - i,
        {
            if self.durable[i].0 == *key {
                proof {
                    lemma_table_lookup(self.durable@, *key);
                }
                return Some(self.durable[i].1.revision);
            }
            i = i + 1;
        }
        None
    }
}

/// The chain a map holds at a hook; no dispatcher means an empty
/// chain.
pub open spec fn spec_chain_at(
    m: Map<DispatcherKey, (u32, Seq<ChainEntry>)>,
    key: DispatcherKey,
) -> Seq<ChainEntry> {
    if m.contains_key(key) {
        m[key].1
    } else {
        Seq::empty()
    }
}

/// Whether a chain holds a member with an id.
pub open spec fn spec_chain_has_id(c: Seq<ChainEntry>, id: u32) -> bool {
    exists|i: int| 0 <= i < c.len() && (#[trigger] c[i]).id == id
}

/// The revision after a rebuild: one more, wrapping silently.
pub open spec fn spec_next_revision(
    m: Map<DispatcherKey, (u32, Seq<ChainEntry>)>,
    key: DispatcherKey,
) -> u32 {
    if m.contains_key(key) {
        if m[key].0 == u32::MAX {
            0u32
        } else {
            (m[key].0 + 1) as u32
        }
    } else {
        0u32
    }
}

/// Where a single injected failure strikes an add or remove: at the
/// kernel load of a new member, at the build and load of the new
/// dispatcher, at the store commit, at the attach of the new
/// dispatcher, or at the unload of the old one.
#[derive(Copy, Clone, Debug, Eq, PartialEq, Structural)]
pub enum FailPoint {
    NoFailure,
    LoadExtension,
    BuildDispatcher,
    Commit,
    Attach,
    UnloadOld,
}

/// Removing the entry that serves a hook removes exactly that hook
/// from the table's map.
proof fn lemma_table_view_remove_at(s: Seq<(DispatcherKey, Dispatcher)>, idx: int, k: DispatcherKey)
    requires
        forall|i: int, j: int| 0 <= i < j < s.len() ==> (#[trigger] s[i]).0 != (#[trigger] s[j]).0,
        0 <= idx < s.len(),
        s[idx].0 == k,
    ensures
        table_view(s.remove(idx)) =~= table_view(s).remove(k),
    decreases s.len(),
{
    if idx == s.len() - 1 {
        assert(s.remove(idx) =~= s.drop_last());
        lemma_table_lookup(s.drop_last(), k);
        assert forall|i: int, j: int|
            0 <= i < j < s.drop_last().len() implies (#[trigger] s.drop_last()[i]).0 != (
        #[trigger] s.drop_last()[j]).0 by {
            assert(s[i].0 != s[j].0);
        }
        lemma_table_lookup(s.drop_last(), k);
        assert(!table_view(s.drop_last()).contains_key(k)) by {
            if exists|i: int| 0 <= i < s.drop_last().len() && (#[trigger] s.drop_last()[i]).0
                == k {
                let i = choose|i: int|
                    0 <= i < s.drop_last().len() && (#[trigger] s.drop_last()[i]).0 == k;
                assert(s[i].0 != s[idx].0);
            }
        }
    } else {
        assert forall|i: int, j: int|
            0 <= i < j < s.drop_last().len() implies (#[trigger] s.drop_last()[i]).0 != (
        #[trigger] s.drop_last()[j]).0 by {
            assert(s[i].0 != s[j].0);
        }
        lemma_table_view_remove_at(s.drop_last(), idx, k);
        assert(s.remove(idx).drop_last() =~= s.drop_last().remove(idx));
        assert(s.remove(idx).last() == s.last());
        assert(s.last().0 != k) by {
            assert(s[idx].0 != s[s.len() - 1].0);
        }
    }
}

/// The entries other than one position keep distinct hooks and
/// ordered chains.
proof fn lemma_table_remove_at_wf(s: Seq<(DispatcherKey, Dispatcher)>, idx: int)
    requires
        table_wf(s),
        0 <= idx < s.len(),
    ensures
        table_wf(s.remove(idx)),
        forall|i: int|
            0 <= i < s.remove(idx).len() ==> (#[trigger] s.remove(idx)[i]).0 != s[idx].0,
{
    let t = s.remove(idx);
    assert forall|i: int, j: int| 0 <= i < j < t.len() implies (#[trigger] t[i]).0 != (
    #[trigger] t[j]).0 by {
        let oi: int = if i < idx { i } else { i + 1 };
        let oj: int = if j < idx { j } else { j + 1 };
        assert(t[i] == s[oi] && t[j] == s[oj]);
        assert(s[oi].0 != s[oj].0);
    }
    assert forall|i: int| 0 <= i < t.len() implies chain_sorted((#[trigger] t[i]).1.chain@) by {
        let oi: int = if i < idx { i } else { i + 1 };
        assert(t[i] == s[oi]);
        assert(chain_sorted(s[oi].1.chain@));
    }
    assert forall|i: int| 0 <= i < t.len() implies (#[trigger] t[i]).0 != s[idx].0 by {
        let oi: int = if i < idx { i } else { i + 1 };
        assert(t[i] == s[oi]);
        if oi < idx {
            assert(s[oi].0 != s[idx].0);
        } else {
            assert(s[idx].0 != s[oi].0);
        }
    }
}

/// Takes the entry that serves a hook out of a table, if one does.
fn table_take(table: &mut Vec<(DispatcherKey, Dispatcher)>, key: DispatcherKey)
    requires
        table_wf(old(table)@),
    ensures
        table_wf(final(table)@),
        table_view(final(table)@) == table_view(old(table)@).remove(key),
        forall|i: int|
            0 <= i < final(table)@.len() ==> (#[trigger] final(table)@[i]).0 != key,
{
    let mut i: usize = 0;
    while i < table.len()
        invariant
            0 <= i <= table@.len(),
            table_wf(table@),
            table@ == old(table)@,
            forall|j: int| 0 <= j < i ==> (#[trigger] table@[j]).0 != key,
        decreases table@.len() - i,
    {
        if table[i].0 == key {
            proof {
                lemma_table_view_remove_at(table@, i as int, key);
                lemma_table_remove_at_wf(table@, i as int);
            }
            table.remove(i);
            return ;
        }
        i = i + 1;
    }
    proof {
        lemma_table_lookup(table@, key);
        assert(!table_view(table@).contains_key(key));
        assert(table_view(table@).remove(key) =~= table_view(table@));
    }
}

/// Replaces (or adds) the dispatcher at a hook.
fn table_upsert(table: &mut Vec<(DispatcherKey, Dispatcher)>, key: DispatcherKey, d: Dispatcher)
    requires
        table_wf(old(table)@),
        chain_sorted(d.chain@),
    ensures
        table_wf(final(table)@),
        table_view(final(table)@) == table_view(old(table)@).insert(key, (d.revision, d.chain@)),
{
    table_take(table, key);
    let ghost taken = table@;
    table.push((key, d));
    proof {
        assert(table@.drop_last() =~= taken);
        assert(table_view(table@) =~= table_view(old(table)@).insert(key, (d.revision, d.chain@)));
        assert forall|a: int, b: int| 0 <= a < b < table@.len() implies (#[trigger] table@[a]).0
            != (#[trigger] table@[b]).0 by {
            if b < table@.len() - 1 {
                assert(taken[a].0 != taken[b].0);
            } else {
                assert(taken[a].0 != key);
            }
        }
        assert forall|a: int| 0 <= a < table@.len() implies chain_sorted(
            (#[trigger] table@[a]).1.chain@,
        ) by {
            if a < table@.len() - 1 {
                assert(chain_sorted(taken[a].1.chain@));
            }
        }
    }
}

/// Removes the dispatcher at a hook, if one serves it.
fn table_remove(table: &mut Vec<(DispatcherKey, Dispatcher)>, key: DispatcherKey)
    requires
        table_wf(old(table)@),
    ensures
        table_wf(final(table)@),
        table_view(final(table)@) == table_view(old(table)@).remove(key),
{
    table_take(table, key);
}

impl World {
    /// Adds one program behind the dispatcher at a hook: the new
    /// member takes its place in chain order, the dispatcher is
    /// rebuilt under the next revision, the store commits, and the
    /// new dispatcher replaces the old at the kernel hook. An id the
    /// chain already holds is rejected as a conflict. A single
    /// injected failure at any step leaves store and kernel exactly
    /// as they were — except at the final unload of the old
    /// dispatcher, which is best-effort: the add stands, and the old
    /// dispatcher object is left for recovery to reap.
    pub fn add_program(
        &mut self,
        key: DispatcherKey,
        entry: ChainEntry,
        fail: FailPoint,
    ) -> (r: Result<Vec<ChainEntry>, BpfmanError>)
        requires
            old(self).quiescent(),
        ensures
            table_wf(final(self).durable@),
            table_wf(final(self).attached@),
            final(self).attached_view() == final(self).durable_view(),
            r matches Ok(c) ==> {
                &&& c@ == (spec_chain_at(old(self).durable_view(), key).push(entry)).sort_by(
                    chain_order(),
                )
                &&& chain_sorted(c@)
                &&& c@.len() == spec_chain_at(old(self).durable_view(), key).len() + 1
                &&& final(self).durable_view() == old(self).durable_view().insert(
                    key,
                    (spec_next_revision(old(self).durable_view(), key), c@),
                )
            },
            r is Err ==> final(self).durable_view() == old(self).durable_view() && final(self).attached_view() == old(self).attached_view() && final(self).orphans@ == old(self).orphans@,
            r is Ok <==> (!spec_chain_has_id(spec_chain_at(old(self).durable_view(), key), entry.id)
                && spec_chain_at(old(self).durable_view(), key).len() < DISPATCHER_SLOTS && (fail
                == FailPoint::NoFailure || fail == FailPoint::UnloadOld)),
            r matches Err(e) ==> (e is Conflict <==> spec_chain_has_id(
                spec_chain_at(old(self).durable_view(), key),
                entry.id,
            )),
            r matches Err(e) ==> (e is TooManyPrograms <==> (!spec_chain_has_id(
                spec_chain_at(old(self).durable_view(), key),
                entry.id,
            ) && spec_chain_at(old(self).durable_view(), key).len() >= DISPATCHER_SLOTS)),
            fail == FailPoint::UnloadOld && r is Ok ==> final(self).orphans@ == seq![key],
            fail == FailPoint::NoFailure ==> final(self).orphans@ == old(self).orphans@,
    {
        let current = self.chain_at(&key);
        if position_of(&current, entry.id).is_some() {
            return Err(BpfmanError::Conflict);
        }
        let new_chain = insert_entry(&current, entry, DISPATCHER_SLOTS)?;
        proof {
            current@.to_multiset_ensures();
            lemma_chain_canonical(new_chain@, current@.push(entry));
        }
        match fail {
            FailPoint::LoadExtension => {
                return Err(
                    BpfmanError::KernelLoad {
                        cause: String::from_str("injected failure loading the new member"),
                    },
                );
            },
            FailPoint::BuildDispatcher => {
                return Err(
                    BpfmanError::KernelLoad {
                        cause: String::from_str("injected failure building the new dispatcher"),
                    },
                );
            },
            FailPoint::Commit => {
                return Err(
                    BpfmanError::DatabaseError(
                        String::from_str("commit"),
                        String::from_str("injected failure flushing the store"),
                    ),
                );
            },
            _ => {},
        }
        let revision = match self.revision_at(&key) {
            Some(v) => {
                if v == u32::MAX {
                    0
                } else {
                    v + 1
                }
            },
            None => 0,
        };
        if matches!(fail, FailPoint::Attach) {
            return Err(
                BpfmanError::KernelAttach {
                    cause: String::from_str("injected failure attaching the new dispatcher"),
                },
            );
        }
        let durable_copy = vstd::slice::slice_to_vec(new_chain.as_slice());
        table_upsert(&mut self.durable, key, Dispatcher { revision, chain: durable_copy });
        let attached_copy = vstd::slice::slice_to_vec(new_chain.as_slice());
        table_upsert(&mut self.attached, key, Dispatcher { revision, chain: attached_copy });
        if matches!(fail, FailPoint::UnloadOld) {
            self.orphans.push(key);
            proof {
                assert(self.orphans@ =~= old(self).orphans@.push(key));
                assert(old(self).orphans@.push(key) =~= seq![key]);
            }
        }
        Ok(new_chain)
    }

    /// Removes the program with an id from the chain at a hook: the
    /// rest keep their order; a chain left empty has its dispatcher
    /// detached and unloaded entirely. An id no chain member carries
    /// is rejected as not found. Failure injection behaves as in
    /// `add_program`.
    pub fn remove_program(&mut self, key: DispatcherKey, id: u32, fail: FailPoint) -> (r: Result<
        Vec<ChainEntry>,
        BpfmanError,
    >)
        requires
            old(self).quiescent(),
        ensures
            table_wf(final(self).durable@),
            table_wf(final(self).attached@),
            final(self).attached_view() == final(self).durable_view(),
            r matches Ok(c) ==> {
                &&& c@ == spec_chain_at(old(self).durable_view(), key).filter(
                    |x: ChainEntry| x.id != id,
                )
                &&& chain_sorted(c@)
                &&& (c@.len() > 0 ==> final(self).durable_view() == old(self).durable_view().insert(
                    key,
                    (spec_next_revision(old(self).durable_view(), key), c@),
                ))
                &&& (c@.len() == 0 ==> final(self).durable_view() == old(self).durable_view().remove(key))
            },
            r is Err ==> final(self).durable_view() == old(self).durable_view() && final(self).attached_view() == old(self).attached_view() && final(self).orphans@ == old(self).orphans@,
            r is Ok <==> (spec_chain_has_id(spec_chain_at(old(self).durable_view(), key), id) && (
            fail == FailPoint::NoFailure || fail == FailPoint::UnloadOld)),
            !spec_chain_has_id(spec_chain_at(old(self).durable_view(), key), id) ==> r == Err::<
                Vec<ChainEntry>,
                BpfmanError,
            >(BpfmanError::NotFound { id }),
            r matches Err(e) ==> (e is NotFound ==> !spec_chain_has_id(
                spec_chain_at(old(self).durable_view(), key),
                id,
            )),
            fail == FailPoint::NoFailure ==> final(self).orphans@ == old(self).orphans@,
    {
        let current = self.chain_at(&key);
        if position_of(&current, id).is_none() {
            return Err(BpfmanError::NotFound { id });
        }
        let new_chain = remove_entry(&current, id);
        proof {
            lemma_filter_keeps_order(current@, |x: ChainEntry| x.id != id);
        }
        match fail {
            FailPoint::LoadExtension => {
                return Err(
                    BpfmanError::KernelLoad {
                        cause: String::from_str("injected failure loading a member"),
                    },
                );
            },
            FailPoint::BuildDispatcher => {
                return Err(
                    BpfmanError::KernelLoad {
                        cause: String::from_str("injected failure building the new dispatcher"),
                    },
                );
            },
            FailPoint::Commit => {
                return Err(
                    BpfmanError::DatabaseError(
                        String::from_str("commit"),
                        String::from_str("injected failure flushing the store"),
                    ),
                );
            },
            FailPoint::Attach => {
                return Err(
                    BpfmanError::KernelAttach {
                        cause: String::from_str("injected failure attaching the new dispatcher"),
                    },
                );
            },
            _ => {},
        }
        if new_chain.len() == 0 {
            table_remove(&mut self.durable, key);
            table_remove(&mut self.attached, key);
        } else {
            let revision = match self.revision_at(&key) {
                Some(v) => {
                    if v == u32::MAX {
                        0
                    } else {
                        v + 1
                    }
                },
                None => 0,
            };
            let durable_copy = vstd::slice::slice_to_vec(new_chain.as_slice());
            table_upsert(&mut self.durable, key, Dispatcher { revision, chain: durable_copy });
            let attached_copy = vstd::slice::slice_to_vec(new_chain.as_slice());
            table_upsert(&mut self.attached, key, Dispatcher { revision, chain: attached_copy });
        }
        if matches!(fail, FailPoint::UnloadOld) {
            self.orphans.push(key);
        }
        Ok(new_chain)
    }

    /// Recovery on start-up: the store is the truth. Every hook the
    /// store knows gets its dispatcher rebuilt and attached, every
    /// orphaned dispatcher object is unloaded, and the store itself
    /// is untouched — so what `list` reports after a restart is what
    /// was durable before it.
    pub fn recover(&mut self)
        requires
            table_wf(old(self).durable@),
        ensures
            final(self).quiescent(),
            final(self).durable_view() == old(self).durable_view(),
    {
        let mut rebuilt: Vec<(DispatcherKey, Dispatcher)> = Vec::new();
        let mut i: usize = 0;
        while i < self.durable.len()
            invariant
                0 <= i <= self.durable@.len(),
                table_wf(self.durable@),
                self.durable@ == old(self).durable@,
                rebuilt@.len() == i,
                forall|j: int|
                    0 <= j < i ==> {
                        &&& (#[trigger] rebuilt@[j]).0 == self.durable@[j].0
                        &&& rebuilt@[j].1.revision == self.durable@[j].1.revision
                        &&& rebuilt@[j].1.chain@ == self.durable@[j].1.chain@
                    },
            decreases self.durable@.len() - i,
        {
            let entry = &self.durable[i];
            let cloned = Dispatcher {
                revision: entry.1.revision,
                chain: vstd::slice::slice_to_vec(entry.1.chain.as_slice()),
            };
            rebuilt.push((entry.0, cloned));
            i = i + 1;
        }
        proof {
            lemma_table_view_congruent(rebuilt@, self.durable@);
            assert forall|a: int, b: int|
                0 <= a < b < rebuilt@.len() implies (#[trigger] rebuilt@[a]).0 != (
            #[trigger] rebuilt@[b]).0 by {
                assert(self.durable@[a].0 != self.durable@[b].0);
            }
            assert forall|a: int| 0 <= a < rebuilt@.len() implies chain_sorted(
                (#[trigger] rebuilt@[a]).1.chain@,
            ) by {
                assert(chain_sorted(self.durable@[a].1.chain@));
            }
        }
        self.attached = rebuilt;
        self.orphans = Vec::new();
        proof {
            assert(self.orphans@ =~= Seq::<DispatcherKey>::empty());
        }
    }
}

/// Two tables whose entries agree element-wise hold the same map.
proof fn lemma_table_view_congruent(
    a: Seq<(DispatcherKey, Dispatcher)>,
    b: Seq<(DispatcherKey, Dispatcher)>,
)
    requires
        a.len() == b.len(),
        forall|j: int|
            0 <= j < a.len() ==> {
                &&& (#[trigger] a[j]).0 == b[j].0
                &&& a[j].1.revision == b[j].1.revision
                &&& a[j].1.chain@ == b[j].1.chain@
            },
    ensures
        table_view(a) == table_view(b),
    decreases a.len(),
{
    if a.len() > 0 {
        assert forall|j: int|
            0 <= j < a.drop_last().len() implies {
            &&& (#[trigger] a.drop_last()[j]).0 == b.drop_last()[j].0
            &&& a.drop_last()[j].1.revision == b.drop_last()[j].1.revision
            &&& a.drop_last()[j].1.chain@ == b.drop_last()[j].1.chain@
        } by {
            assert(a[j].0 == b[j].0 && a[j].1.revision == b[j].1.revision && a[j].1.chain@
                == b[j].1.chain@);
        }
        lemma_table_view_congruent(a.drop_last(), b.drop_last());
    }
}

pub const TAG_DISPATCHER_REVISION: u8 = 70;

pub const TAG_DISPATCHER_CHAIN: u8 = 71;

/// The store-tree name of the dispatcher at a hook: a tag byte, the
/// interface index, and a byte for the direction.
pub open spec fn spec_dispatcher_tree_name(key: DispatcherKey) -> Seq<u8> {
    seq![68u8] + vstd::bytes::spec_u32_to_le_bytes(key.if_index) + seq![
        match key.direction {
            None => 0u8,
            Some(Direction::Ingress) => 1u8,
            Some(Direction::Egress) => 2u8,
        },
    ]
}

/// Builds the store-tree name of the dispatcher at a hook.
pub fn dispatcher_tree_name(key: &DispatcherKey) -> (r: Vec<u8>)
    ensures
        r@ == spec_dispatcher_tree_name(*key),
{
    let mut name: Vec<u8> = Vec::new();
    name.push(68u8);
    let mut idx = vstd::bytes::u32_to_le_bytes(key.if_index);
    name.append(&mut idx);
    let dir: u8 = match key.direction {
        None => 0,
        Some(Direction::Ingress) => 1,
        Some(Direction::Egress) => 2,
    };
    name.push(dir);
    proof {
        assert(name@ =~= spec_dispatcher_tree_name(*key));
    }
    name
}

/// The packed words a chain is stored as: for each member, the bit
/// pattern of its priority, then its id.
pub open spec fn spec_chain_words(s: Seq<ChainEntry>) -> Seq<u32>
    decreases s.len(),
{
    if s.len() == 0 {
        Seq::empty()
    } else {
        spec_chain_words(s.drop_last()) + seq![
            crate::codec::spec_i32_bits(s.last().priority),
            s.last().id,
        ]
    }
}

/// The chain, if any, that packed words decode to: the length must
/// be even.
pub open spec fn spec_chain_of_words(ws: Seq<u32>) -> Option<Seq<ChainEntry>>
    decreases ws.len(),
{
    if ws.len() == 0 {
        Some(Seq::empty())
    } else if ws.len() < 2 {
        None
    } else {
        match spec_chain_of_words(ws.take(ws.len() - 2)) {
            Some(p) => Some(
                p.push(
                    ChainEntry {
                        priority: crate::codec::spec_u32_unbits(ws[ws.len() - 2]),
                        id: ws[ws.len() - 1],
                    },
                ),
            ),
            None => None,
        }
    }
}

/// Every chain round-trips through its packed words.
pub proof fn lemma_chain_words_round_trip(s: Seq<ChainEntry>)
    ensures
        spec_chain_of_words(spec_chain_words(s)) == Some(s),
        spec_chain_words(s).len() == 2 * s.len(),
    decreases s.len(),
{
    if s.len() > 0 {
        lemma_chain_words_round_trip(s.drop_last());
        let ws = spec_chain_words(s);
        assert(ws.take(ws.len() - 2) =~= spec_chain_words(s.drop_last()));
        assert(ws[ws.len() - 2] == crate::codec::spec_i32_bits(s.last().priority));
        assert(ws[ws.len() - 1] == s.last().id);
        assert(s.drop_last().push(s.last()) =~= s);
    }
}

impl Dispatcher {
    /// Writes this dispatcher's revision and chain into its store
    /// tree: how the engine's durable table reaches disk, one tree
    /// per hook.
    pub fn save(&self, tree: &mut sled::Tree) -> (r: Result<(), BpfmanError>)
        ensures
            tree_name_of(*final(tree)) == tree_name_of(*old(tree)),
            r is Ok ==> field_u32(tree_model(*final(tree)), TAG_DISPATCHER_REVISION) == Some(
                self.revision,
            ),
            r is Ok ==> field_u32s(tree_model(*final(tree)), TAG_DISPATCHER_CHAIN) == Some(
                spec_chain_words(self.chain@),
            ),
            r matches Err(e) ==> e is DatabaseError,
    {
        let mut words: Vec<u32> = Vec::new();
        let mut i: usize = 0;
        while i < self.chain.len()
            invariant
                0 <= i <= self.chain@.len(),
                words@ == spec_chain_words(self.chain@.take(i as int)),
            decreases self.chain@.len() - i,
        {
            let ghost prefix = self.chain@.take(i as int);
            words.push(crate::codec::i32_bits(self.chain[i].priority));
            words.push(self.chain[i].id);
            proof {
                assert(self.chain@.take(i + 1).drop_last() =~= prefix);
                assert(self.chain@.take(i + 1).last() == self.chain@[i as int]);
                assert(words@ =~= spec_chain_words(prefix) + seq![
                    crate::codec::spec_i32_bits(self.chain@[i as int].priority),
                    self.chain@[i as int].id,
                ]);
            }
            i = i + 1;
        }
        proof {
            assert(self.chain@.take(self.chain@.len() as int) =~= self.chain@);
        }
        crate::fields::put_u32(tree, TAG_DISPATCHER_REVISION, self.revision)?;
        crate::fields::put_u32s(tree, TAG_DISPATCHER_CHAIN, &words)?;
        proof {
            assert(seq![TAG_DISPATCHER_REVISION][0] == TAG_DISPATCHER_REVISION);
            assert(seq![TAG_DISPATCHER_CHAIN][0] == TAG_DISPATCHER_CHAIN);
        }
        match crate::store::sled_flush(tree) {
            Ok(_) => Ok(()),
            Err(e) => Err(BpfmanError::DatabaseError(String::from_str("flush"), e)),
        }
    }

    /// Reads a dispatcher back from its store tree.
    pub fn load(tree: &sled::Tree) -> (r: Result<Dispatcher, BpfmanError>)
        ensures
            r matches Ok(d) ==> field_u32(tree_model(*tree), TAG_DISPATCHER_REVISION) == Some(
                d.revision,
            ),
            r matches Ok(d) ==> (field_u32s(tree_model(*tree), TAG_DISPATCHER_CHAIN) matches Some(
                ws,
            ) && spec_chain_of_words(ws) == Some(d.chain@)),
            field_u32(tree_model(*tree), TAG_DISPATCHER_REVISION) is None ==> r is Err,
            field_u32s(tree_model(*tree), TAG_DISPATCHER_CHAIN) is None ==> r is Err,
            r matches Err(e) ==> e is DatabaseError,
    {
        let revision = crate::fields::get_u32(tree, TAG_DISPATCHER_REVISION)?;
        let words = crate::fields::get_u32s(tree, TAG_DISPATCHER_CHAIN)?;
        if words.len() % 2 != 0 {
            proof {
                lemma_chain_words_undecodable(words@);
            }
            return Err(
                BpfmanError::DatabaseError(
                    String::from_str("store access"),
                    String::from_str("malformed dispatcher chain"),
                ),
            );
        }
        let n = words.len();
        let half = n / 2;
        let mut chain: Vec<ChainEntry> = Vec::new();
        let mut i: usize = 0;
        while i < half
            invariant
                0 <= i <= half,
                n == words@.len(),
                words@.len() % 2 == 0,
                2 * (half as int) == n as int,
                spec_chain_of_words(words@.take(2 * i)) == Some(chain@),
                chain@.len() == i,
            decreases half - i,
        {
            let ghost prefix = words@.take(2 * i as int);
            let priority = crate::codec::u32_unbits(words[2 * i]);
            let id = words[2 * i + 1];
            chain.push(ChainEntry { priority, id });
            proof {
                let t = words@.take(2 * (i + 1) as int);
                assert(t.take(t.len() - 2) =~= prefix);
                assert(t[t.len() - 2] == words@[2 * i as int]);
                assert(t[t.len() - 1] == words@[2 * i as int + 1]);
            }
            i = i + 1;
        }
        proof {
            assert(words@.take(2 * ((words@.len() / 2) as int)) =~= words@);
        }
        Ok(Dispatcher { revision, chain })
    }
}

/// Words of odd length decode to no chain.
proof fn lemma_chain_words_undecodable(ws: Seq<u32>)
    requires
        ws.len() % 2 != 0,
    ensures
        spec_chain_of_words(ws) is None,
    decreases ws.len(),
{
    if ws.len() >= 2 {
        lemma_chain_words_undecodable(ws.take(ws.len() - 2));
    }
}


} // verus!
