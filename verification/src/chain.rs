//! The ordered chain of client programs behind one dispatcher: who
//! stands where. Members are ordered by priority ascending, with the
//! daemon id as the tie-breaker, so the order is deterministic and
//! stable under re-insertion; a member's position is its 0-based
//! index in that order.

use vstd::prelude::*;
use vstd::multiset::Multiset;
use vstd::relations::{sorted_by, total_ordering};
use vstd::seq_lib::lemma_multiset_commutative;
use vstd::seq_lib::lemma_sorted_unique;

use crate::errors::BpfmanError;

verus! {

/// The number of slots a dispatcher program offers: the kernel-side
/// limit on chain length.
pub const DISPATCHER_SLOTS: usize = 10;

/// One member of a dispatcher chain: a program's daemon id and its
/// client-chosen priority.
#[derive(Copy, Clone, Debug, Eq, PartialEq, Structural)]
pub struct ChainEntry {
    pub priority: i32,
    pub id: u32,
}

/// The chain order: priority ascending, id as tie-breaker.
pub open spec fn entry_le(a: ChainEntry, b: ChainEntry) -> bool {
    a.priority < b.priority || (a.priority == b.priority && a.id <= b.id)
}

/// The chain order as a relation value, for the sorting lemmas.
pub open spec fn chain_order() -> spec_fn(ChainEntry, ChainEntry) -> bool {
    |a: ChainEntry, b: ChainEntry| entry_le(a, b)
}

/// Whether a sequence of members stands in chain order.
pub open spec fn chain_sorted(s: Seq<ChainEntry>) -> bool {
    sorted_by(s, chain_order())
}

/// The chain order is a total ordering.
pub proof fn lemma_chain_order_total()
    ensures
        total_ordering(chain_order()),
{
}

/// Compares two members in chain order.
pub fn entry_le_exec(a: &ChainEntry, b: &ChainEntry) -> (r: bool)
    ensures
        r == entry_le(*a, *b),
{
    a.priority < b.priority || (a.priority == b.priority && a.id <= b.id)
}

impl ChainEntry {
    /// Builds a member from its priority and id.
    pub fn new(priority: i32, id: u32) -> (r: ChainEntry)
        ensures
            r.priority == priority,
            r.id == id,
    {
        ChainEntry { priority, id }
    }
}

/// Inserts a new member into a chain held in chain order, keeping
/// the order; a chain already holding `capacity` members rejects the
/// member with `TooManyPrograms`.
pub fn insert_entry(chain: &Vec<ChainEntry>, e: ChainEntry, capacity: usize) -> (r: Result<
    Vec<ChainEntry>,
    BpfmanError,
>)
    requires
        chain_sorted(chain@),
    ensures
        chain@.len() < capacity <==> r is Ok,
        r matches Err(err) ==> err is TooManyPrograms,
        r matches Ok(c) ==> chain_sorted(c@) && c@.len() == chain@.len() + 1
            && c@.to_multiset() == chain@.to_multiset().insert(e),
{
    if chain.len() >= capacity {
        return Err(BpfmanError::TooManyPrograms);
    }
    let mut k: usize = 0;
    while k < chain.len() && entry_le_exec(&chain[k], &e)
        invariant
            0 <= k <= chain@.len(),
            forall|j: int| 0 <= j < k ==> entry_le(chain@[j], e),
        decreases chain@.len() - k,
    {
        k = k + 1;
    }
    let mut out = chain.clone();
    out.insert(k, e);
    proof {
        let c = chain@.insert(k as int, e);
        assert(out@ == c);
        assert forall|i: int, j: int| 0 <= i < j < c.len() implies chain_order()(
            c[i],
            c[j],
        ) by {
            assert(entry_le(c[i], c[j])) by {
                if j < k {
                    assert(c[i] == chain@[i] && c[j] == chain@[j]);
                    assert(chain_order()(chain@[i], chain@[j]));
                } else if i > k {
                    assert(c[i] == chain@[i - 1] && c[j] == chain@[j - 1]);
                    assert(chain_order()(chain@[i - 1], chain@[j - 1]));
                } else if i < k && j == k {
                    assert(c[i] == chain@[i] && c[j] == e);
                } else if i < k && j > k {
                    assert(c[i] == chain@[i] && c[j] == chain@[j - 1]);
                    assert(chain_order()(chain@[i], chain@[j - 1]));
                } else if i == k && j > k {
                    assert(c[i] == e && c[j] == chain@[j - 1]);
                    if (k as int) < chain@.len() {
                        assert(!entry_le(chain@[k as int], e));
                        if k as int <= j - 1 && k as int != j - 1 {
                            assert(chain_order()(chain@[k as int], chain@[j - 1]));
                        }
                    }
                }
            }
        }
        assert(chain_sorted(c));
        lemma_insert_multiset(chain@, k as int, e);
    }
    Ok(out)
}

/// Inserting into a sequence adds exactly one copy of the new
/// element to its multiset.
proof fn lemma_insert_multiset(s: Seq<ChainEntry>, k: int, e: ChainEntry)
    requires
        0 <= k <= s.len(),
    ensures
        s.insert(k, e).to_multiset() == s.to_multiset().insert(e),
{
    broadcast use vstd::seq_lib::group_to_multiset_ensures;

    let c = s.insert(k, e);
    assert(c =~= s.take(k) + (seq![e] + s.skip(k)));
    lemma_multiset_commutative(s.take(k), seq![e] + s.skip(k));
    lemma_multiset_commutative(seq![e], s.skip(k));
    assert(seq![e] =~= Seq::<ChainEntry>::empty().push(e));
    assert(seq![e].to_multiset() == Multiset::<ChainEntry>::empty().insert(e));
    assert(s =~= s.take(k) + s.skip(k));
    lemma_multiset_commutative(s.take(k), s.skip(k));
    assert(c.to_multiset() =~= s.to_multiset().insert(e));
}

/// Removes the member with an id from a chain, keeping the order of
/// the rest; a chain without that id comes back unchanged.
pub fn remove_entry(chain: &Vec<ChainEntry>, id: u32) -> (r: Vec<ChainEntry>)
    ensures
        r@ == chain@.filter(|x: ChainEntry| x.id != id),
{
    broadcast use vstd::seq_lib::group_seq_properties;

    let mut out: Vec<ChainEntry> = Vec::new();
    let mut i: usize = 0;
    while i < chain.len()
        invariant
            0 <= i <= chain@.len(),
            out@ == chain@.take(i as int).filter(|x: ChainEntry| x.id != id),
        decreases chain@.len() - i,
    {
        let ghost prefix = chain@.take(i as int);
        if chain[i].id != id {
            out.push(chain[i]);
        }
        proof {
            assert(chain@.take(i + 1) =~= prefix.push(chain@[i as int]));
            prefix.lemma_filter_push(chain@[i as int], |x: ChainEntry| x.id != id);
        }
        i = i + 1;
    }
    proof {
        assert(chain@.take(chain@.len() as int) =~= chain@);
    }
    out
}

/// A filtered chain keeps the chain order.
pub proof fn lemma_filter_keeps_order(s: Seq<ChainEntry>, pred: spec_fn(ChainEntry) -> bool)
    requires
        chain_sorted(s),
    ensures
        chain_sorted(s.filter(pred)),
    decreases s.len(),
{
    reveal(Seq::filter);
    if s.len() > 0 {
        assert forall|i: int, j: int| 0 <= i < j < s.drop_last().len() implies chain_order()(
            s.drop_last()[i],
            s.drop_last()[j],
        ) by {
            assert(chain_order()(s[i], s[j]));
        }
        lemma_filter_keeps_order(s.drop_last(), pred);
        if pred(s.last()) {
            let f = s.drop_last().filter(pred);
            assert forall|i: int, j: int| 0 <= i < j < f.push(s.last()).len() implies chain_order()(
                f.push(s.last())[i],
                f.push(s.last())[j],
            ) by {
                if j < f.len() {
                    assert(chain_order()(f[i], f[j]));
                } else {
                    let x = f[i];
                    assert(f.contains(x));
                    s.drop_last().lemma_filter_contains_rev(pred, x);
                    let idx = choose|m: int|
                        0 <= m < s.drop_last().len() && s.drop_last()[m] == x;
                    assert(s[idx] == x);
                    assert(chain_order()(s[idx], s.last()));
                }
            }
        }
    }
}

/// The index of the member with an id, if one stands in the chain.
pub fn position_of(chain: &Vec<ChainEntry>, id: u32) -> (r: Option<usize>)
    ensures
        r matches Some(i) ==> i < chain@.len() && chain@[i as int].id == id,
        r is None ==> forall|j: int| 0 <= j < chain@.len() ==> chain@[j].id != id,
{
    let mut i: usize = 0;
    while i < chain.len()
        invariant
            0 <= i <= chain@.len(),
            forall|j: int| 0 <= j < i ==> chain@[j].id != id,
        decreases chain@.len() - i,
    {
        if chain[i].id == id {
            return Some(i);
        }
        i = i + 1;
    }
    None
}

/// The keystone of the chain order: a chain in chain order that
/// holds exactly some set of members is the one and only sort of
/// those members. So whatever sequence of adds and removes produced
/// a chain, the chain equals the surviving members sorted by
/// priority and id.
pub proof fn lemma_chain_canonical(c: Seq<ChainEntry>, members: Seq<ChainEntry>)
    requires
        chain_sorted(c),
        c.to_multiset() == members.to_multiset(),
    ensures
        c == members.sort_by(chain_order()),
{
    lemma_chain_order_total();
    members.lemma_sort_by_ensures(chain_order());
    lemma_sorted_unique(c, members.sort_by(chain_order()), chain_order());
}

/// The chain that one add leaves behind: the members so far plus
/// the new one, in chain order.
pub open spec fn spec_chain_after_add(c: Seq<ChainEntry>, e: ChainEntry) -> Seq<ChainEntry> {
    (c.push(e)).sort_by(chain_order())
}

/// Filtering commutes with removing one element: taking an element
/// out first and filtering is filtering and then taking that element
/// out of the result (when the predicate keeps it).
proof fn lemma_filter_remove_one(s: Seq<ChainEntry>, j: int, pred: spec_fn(ChainEntry) -> bool)
    requires
        0 <= j < s.len(),
    ensures
        pred(s[j]) ==> s.filter(pred).to_multiset() == s.remove(j).filter(
            pred,
        ).to_multiset().insert(s[j]),
        !pred(s[j]) ==> s.filter(pred).to_multiset() == s.remove(j).filter(pred).to_multiset(),
    decreases s.len(),
{
    broadcast use vstd::seq_lib::group_to_multiset_ensures;

    reveal(Seq::filter);
    if j == s.len() - 1 {
        assert(s.remove(j) =~= s.drop_last());
    } else {
        lemma_filter_remove_one(s.drop_last(), j, pred);
        assert(s.remove(j).drop_last() =~= s.drop_last().remove(j));
        assert(s.remove(j).last() == s.last());
        if pred(s.last()) {
            assert(s.filter(pred) == s.drop_last().filter(pred).push(s.last()));
            assert(s.remove(j).filter(pred) == s.drop_last().remove(j).filter(pred).push(
                s.last(),
            ));
            if pred(s[j]) {
                assert(s.filter(pred).to_multiset() =~= s.remove(j).filter(
                    pred,
                ).to_multiset().insert(s[j]));
            }
        } else {
            assert(s.filter(pred) == s.drop_last().filter(pred));
            assert(s.remove(j).filter(pred) == s.drop_last().remove(j).filter(pred));
        }
    }
}

/// Sequences holding the same members filter to the same members:
/// what survives a filter depends on what was there, not on the
/// order it stood in.
proof fn lemma_filter_of_permutation(
    s1: Seq<ChainEntry>,
    s2: Seq<ChainEntry>,
    pred: spec_fn(ChainEntry) -> bool,
)
    requires
        s1.to_multiset() == s2.to_multiset(),
    ensures
        s1.filter(pred).to_multiset() == s2.filter(pred).to_multiset(),
    decreases s1.len(),
{
    broadcast use vstd::seq_lib::group_to_multiset_ensures;

    reveal(Seq::filter);
    if s1.len() == 0 {
        assert(s2.len() == s2.to_multiset().len());
        assert(s2 =~= Seq::<ChainEntry>::empty());
    } else {
        let x = s1.last();
        assert(s1.to_multiset().count(x) > 0) by {
            assert(s1.contains(x)) by {
                assert(s1[s1.len() - 1] == x);
            }
        }
        assert(s2.contains(x));
        let j = choose|j: int| 0 <= j < s2.len() && s2[j] == x;
        assert(s1.drop_last() =~= s1.remove(s1.len() - 1));
        assert(s1.drop_last().to_multiset() =~= s2.remove(j).to_multiset()) by {
            assert(s1.remove(s1.len() - 1).to_multiset() =~= s1.to_multiset().remove(x));
            assert(s2.remove(j).to_multiset() =~= s2.to_multiset().remove(x));
        }
        lemma_filter_of_permutation(s1.drop_last(), s2.remove(j), pred);
        lemma_filter_remove_one(s2, j, pred);
        if pred(x) {
            assert(s1.filter(pred) == s1.drop_last().filter(pred).push(x));
            assert(s1.filter(pred).to_multiset() =~= s1.drop_last().filter(
                pred,
            ).to_multiset().insert(x));
        } else {
            assert(s1.filter(pred) == s1.drop_last().filter(pred));
        }
    }
}

/// One step of a chain's life: a member arrives, or the member with
/// an id leaves.
pub enum ChainOp {
    Add(ChainEntry),
    Remove(u32),
}

/// The chain that a whole history of adds and removes leaves behind,
/// as the engine computes it: each add re-sorts, each remove filters.
pub open spec fn spec_chain_of_ops(ops: Seq<ChainOp>) -> Seq<ChainEntry>
    decreases ops.len(),
{
    if ops.len() == 0 {
        Seq::empty()
    } else {
        let c = spec_chain_of_ops(ops.drop_last());
        match ops.last() {
            ChainOp::Add(e) => spec_chain_after_add(c, e),
            ChainOp::Remove(id) => c.filter(|x: ChainEntry| x.id != id),
        }
    }
}

/// The members that survive a history, kept in arrival order with no
/// sorting at all.
pub open spec fn spec_survivors(ops: Seq<ChainOp>) -> Seq<ChainEntry>
    decreases ops.len(),
{
    if ops.len() == 0 {
        Seq::empty()
    } else {
        let s = spec_survivors(ops.drop_last());
        match ops.last() {
            ChainOp::Add(e) => s.push(e),
            ChainOp::Remove(id) => s.filter(|x: ChainEntry| x.id != id),
        }
    }
}

/// For every history of adds and removes with arbitrary priorities,
/// the chain equals the surviving members sorted by priority and id
/// — and a member's position is its index in that sort.
pub proof fn lemma_ops_canonical(ops: Seq<ChainOp>)
    ensures
        spec_chain_of_ops(ops) == spec_survivors(ops).sort_by(chain_order()),
        chain_sorted(spec_chain_of_ops(ops)),
    decreases ops.len(),
{
    broadcast use vstd::seq_lib::group_to_multiset_ensures;

    lemma_chain_order_total();
    if ops.len() == 0 {
        Seq::<ChainEntry>::empty().lemma_sort_by_ensures(chain_order());
        assert(Seq::<ChainEntry>::empty().sort_by(chain_order()).len() == Seq::<
            ChainEntry,
        >::empty().sort_by(chain_order()).to_multiset().len());
        assert(spec_survivors(ops).sort_by(chain_order()) =~= Seq::<ChainEntry>::empty());
    } else {
        let rest = ops.drop_last();
        lemma_ops_canonical(rest);
        let c = spec_chain_of_ops(rest);
        let surv = spec_survivors(rest);
        surv.lemma_sort_by_ensures(chain_order());
        match ops.last() {
            ChainOp::Add(e) => {
                let c2 = spec_chain_after_add(c, e);
                (c.push(e)).lemma_sort_by_ensures(chain_order());
                (surv.push(e)).lemma_sort_by_ensures(chain_order());
                assert(c.push(e).to_multiset() =~= c.to_multiset().insert(e));
                assert(surv.push(e).to_multiset() =~= surv.to_multiset().insert(e));
                lemma_sorted_unique(
                    c2,
                    spec_survivors(ops).sort_by(chain_order()),
                    chain_order(),
                );
            },
            ChainOp::Remove(id) => {
                let pred = |x: ChainEntry| x.id != id;
                let c2 = c.filter(pred);
                lemma_filter_keeps_order(c, pred);
                lemma_filter_of_permutation(c, surv, pred);
                (surv.filter(pred)).lemma_sort_by_ensures(chain_order());
                lemma_sorted_unique(
                    c2,
                    spec_survivors(ops).sort_by(chain_order()),
                    chain_order(),
                );
            },
        }
    }
}


} // verus!
