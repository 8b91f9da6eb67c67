//! The weighted round-robin schedule of one address family, and its laws.

use vstd::prelude::*;
use vstd::arithmetic::div_mod::lemma_add_mod_noop;

use crate::ip::IpAddress;

verus! {

/// A local source address with the number of consecutive dispatches it serves
/// before the cursor moves on.
#[derive(Clone, Copy, Debug, PartialEq, Eq, Structural)]
pub struct WeightedIp {
    pub ip: IpAddress,
    pub weight: usize,
}

/// The round-robin state of one address family: the ordered entries, the cursor
/// into them, and how many dispatches the entry under the cursor has served.
pub ghost struct FamilyView {
    pub ips: Seq<WeightedIp>,
    pub cursor: nat,
    pub count: nat,
}

pub open spec fn weights_positive(ips: Seq<WeightedIp>) -> bool {
    forall|i: int| 0 <= i < ips.len() ==> #[trigger] ips[i].weight > 0
}

pub open spec fn family_wf(f: FamilyView) -> bool {
    &&& weights_positive(f.ips)
    &&& f.ips.len() > 0 ==> f.cursor < f.ips.len() && f.count < f.ips[f.cursor as int].weight
    &&& f.ips.len() == 0 ==> f.cursor == 0 && f.count == 0
}

/// The state in which a family starts: cursor on the first entry, nothing served.
pub open spec fn fresh_family(ips: Seq<WeightedIp>) -> FamilyView {
    FamilyView { ips, cursor: 0, count: 0 }
}

/// The address that the next dispatch into a non-empty family returns.
pub open spec fn family_chosen(f: FamilyView) -> IpAddress {
    f.ips[f.cursor as int].ip
}

/// The family after one dispatch: the entry under the cursor has served one more,
/// and once it has served its weight the cursor moves to the next entry, cyclically.
pub open spec fn family_step(f: FamilyView) -> FamilyView {
    if f.count + 1 == f.ips[f.cursor as int].weight {
        FamilyView { ips: f.ips, cursor: ((f.cursor + 1) % f.ips.len()) as nat, count: 0 }
    } else {
        FamilyView { ips: f.ips, cursor: f.cursor, count: f.count + 1 }
    }
}

/// The family after `k` successive dispatches.
pub open spec fn family_after(f: FamilyView, k: nat) -> FamilyView
    decreases k,
{
    if k == 0 {
        f
    } else {
        family_step(family_after(f, (k - 1) as nat))
    }
}

/// The sum of all weights.
pub open spec fn total_weight(ips: Seq<WeightedIp>) -> nat
    decreases ips.len(),
{
    if ips.len() == 0 {
        0
    } else {
        total_weight(ips.drop_last()) + ips.last().weight as nat
    }
}

/// One period of the dispatch sequence: each address repeated as often as its weight,
/// in list order.
pub open spec fn expanded(ips: Seq<WeightedIp>) -> Seq<IpAddress>
    decreases ips.len(),
{
    if ips.len() == 0 {
        Seq::empty()
    } else {
        expanded(ips.drop_last()) + Seq::new(ips.last().weight as nat, |j: int| ips.last().ip)
    }
}

/// How far into one period of `expanded` a family state stands.
pub open spec fn position(f: FamilyView) -> nat {
    total_weight(f.ips.subrange(0, f.cursor as int)) + f.count
}

proof fn lemma_prefix_step(ips: Seq<WeightedIp>, i: int)
    requires
        0 <= i < ips.len(),
    ensures
        total_weight(ips.subrange(0, i + 1)) == total_weight(ips.subrange(0, i)) + ips[i].weight,
{
    assert(ips.subrange(0, i + 1).drop_last() =~= ips.subrange(0, i));
}

proof fn lemma_prefix_monotone(ips: Seq<WeightedIp>, i: int, j: int)
    requires
        0 <= i <= j <= ips.len(),
    ensures
        total_weight(ips.subrange(0, i)) <= total_weight(ips.subrange(0, j)),
    decreases j - i,
{
    if i < j {
        lemma_prefix_step(ips, j - 1);
        lemma_prefix_monotone(ips, i, j - 1);
    }
}

proof fn lemma_expanded_len(ips: Seq<WeightedIp>)
    ensures
        expanded(ips).len() == total_weight(ips),
    decreases ips.len(),
{
    if ips.len() > 0 {
        lemma_expanded_len(ips.drop_last());
    }
}

proof fn lemma_expanded_index(ips: Seq<WeightedIp>, i: int, c: int)
    requires
        0 <= i < ips.len(),
        0 <= c < ips[i].weight,
    ensures
        total_weight(ips.subrange(0, i)) + c < total_weight(ips),
        expanded(ips)[total_weight(ips.subrange(0, i)) + c] == ips[i].ip,
    decreases ips.len(),
{
    let init = ips.drop_last();
    lemma_expanded_len(init);
    assert(ips.subrange(0, ips.len() - 1) =~= init);
    if i == ips.len() - 1 {
    } else {
        assert(ips.subrange(0, i) =~= init.subrange(0, i));
        lemma_expanded_index(init, i, c);
    }
}

/// Each dispatch returns the element of `expanded` at the state's position, and
/// moves the position one step along the period.
proof fn lemma_step_position(f: FamilyView)
    requires
        family_wf(f),
        f.ips.len() > 0,
    ensures
        family_wf(family_step(f)),
        position(f) < total_weight(f.ips),
        expanded(f.ips)[position(f) as int] == family_chosen(f),
        position(family_step(f)) == (position(f) + 1) % total_weight(f.ips),
{
    let ips = f.ips;
    let i = f.cursor as int;
    lemma_expanded_index(ips, i, f.count as int);
    lemma_prefix_step(ips, i);
    lemma_prefix_monotone(ips, i + 1, ips.len() as int);
    assert(ips.subrange(0, ips.len() as int) =~= ips);
    let g = family_step(f);
    if f.count + 1 == ips[i].weight {
        if i + 1 < ips.len() {
            vstd::arithmetic::div_mod::lemma_small_mod((i + 1) as nat, ips.len());
            assert(g.cursor == i + 1);
            lemma_prefix_step(ips, i + 1);
            lemma_prefix_monotone(ips, i + 2, ips.len() as int);
            vstd::arithmetic::div_mod::lemma_small_mod(position(f) + 1, total_weight(ips));
        } else {
            vstd::arithmetic::div_mod::lemma_mod_self_0(ips.len() as int);
            assert(g.cursor == 0);
            assert(ips.subrange(0, 0) =~= Seq::<WeightedIp>::empty());
            vstd::arithmetic::div_mod::lemma_mod_self_0(total_weight(ips) as int);
        }
    } else {
        vstd::arithmetic::div_mod::lemma_small_mod(position(f) + 1, total_weight(ips));
    }
    assert(weights_positive(g.ips));
}

proof fn lemma_after_position(ips: Seq<WeightedIp>, k: nat)
    requires
        ips.len() > 0,
        weights_positive(ips),
    ensures
        family_wf(family_after(fresh_family(ips), k)),
        family_after(fresh_family(ips), k).ips == ips,
        position(family_after(fresh_family(ips), k)) == k % total_weight(ips),
    decreases k,
{
    let t = total_weight(ips);
    lemma_prefix_step(ips, 0);
    lemma_prefix_monotone(ips, 1, ips.len() as int);
    assert(ips.subrange(0, ips.len() as int) =~= ips);
    if k == 0 {
        assert(ips.subrange(0, 0) =~= Seq::<WeightedIp>::empty());
        vstd::arithmetic::div_mod::lemma_small_mod(0, t);
    } else {
        lemma_after_position(ips, (k - 1) as nat);
        let f = family_after(fresh_family(ips), (k - 1) as nat);
        lemma_step_position(f);
        lemma_add_mod_noop((k - 1) as int, 1, t as int);
        if t == 1 {
            vstd::arithmetic::div_mod::lemma_mod_self_0(1);
        } else {
            vstd::arithmetic::div_mod::lemma_small_mod(1, t);
        }
    }
}

/// Weighted round robin: starting from a fresh family, the `k`-th dispatch (counting
/// from zero) returns element `k mod W` of the list's expansion, where `W` is the sum
/// of the weights. So the dispatches return the first address as many times as its
/// weight, then the second as many times as its weight, and so on, then start over.
pub proof fn lemma_weighted_sequence(ips: Seq<WeightedIp>, k: nat)
    requires
        ips.len() > 0,
        weights_positive(ips),
    ensures
        total_weight(ips) > 0,
        expanded(ips).len() == total_weight(ips),
        family_chosen(family_after(fresh_family(ips), k)) == expanded(ips)[(k % total_weight(ips)) as int],
{
    lemma_after_position(ips, k);
    lemma_step_position(family_after(fresh_family(ips), k));
    lemma_expanded_len(ips);
}

/// An entry of weight one is served once: the cursor moves on at every dispatch.
pub proof fn lemma_weight_one_advances(f: FamilyView)
    requires
        family_wf(f),
        f.ips.len() > 0,
        f.ips[f.cursor as int].weight == 1,
    ensures
        family_step(f).cursor == (f.cursor + 1) % f.ips.len(),
        family_step(f).count == 0,
{
}

/// A family of a single entry returns that entry's address on every dispatch,
/// whatever its weight.
pub proof fn lemma_single_entry_constant(ips: Seq<WeightedIp>, k: nat)
    requires
        ips.len() == 1,
        weights_positive(ips),
    ensures
        family_chosen(family_after(fresh_family(ips), k)) == ips[0].ip,
{
    lemma_after_position(ips, k);
    let f = family_after(fresh_family(ips), k);
    assert(f.cursor == 0);
}

} // verus!
