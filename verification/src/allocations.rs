//! Allocation entries and the insert-or-replace procedure over per-asset
//! allocation lists.
//!
//! An allocation list is an ordered sequence of mutually exclusive strategy
//! entries.  Its invariant: the percentages of all non-allowance entries sum
//! to strictly less than [`crate::ALLOCATION_TOTAL`] (100%), and no two
//! entries share a target address.  The only mutation path is
//! [`upsert_entry`], which replaces any entry with the same target address
//! before re-validating the bound.

use vstd::prelude::*;

use crate::assets::{Contract, ContractV};
use crate::Error;
use crate::ALLOCATION_TOTAL;

verus! {

/// One allocation strategy for one asset.
///
/// Every percent-bearing variant carries a fixed-point fraction with
/// denominator `10^18`; an `Allowance` instead carries an absolute credit-line
/// target, which never counts against the percentage budget.
#[derive(Clone, Debug, PartialEq, Eq)]
pub enum Allocation {
    /// Funds retained in treasury custody.
    Reserves { allocation: u128 },
    /// A standing credit line for `address`, reconciled monthly to `amount`.
    Allowance { address: String, amount: u128 },
    /// Funds forwarded immediately to a reward pool.
    Rewards { allocation: u128, contract: Contract },
    /// Funds forwarded immediately to a staking pool.
    Staking { allocation: u128, contract: Contract },
    /// Accepted but inert: occupies budget, never forwards.
    Application { contract: Contract, allocation: u128, token: String },
    /// Accepted but inert: occupies budget, never forwards.
    Pool { contract: Contract, allocation: u128, secondary_asset: String, token: String },
}

/// Mathematical model of an [`Allocation`].
#[verifier::ext_equal]
pub enum AllocationV {
    Reserves { allocation: u128 },
    Allowance { address: Seq<char>, amount: u128 },
    Rewards { allocation: u128, contract: ContractV },
    Staking { allocation: u128, contract: ContractV },
    Application { contract: ContractV, allocation: u128, token: Seq<char> },
    Pool { contract: ContractV, allocation: u128, secondary_asset: Seq<char>, token: Seq<char> },
}

impl View for Allocation {
    type V = AllocationV;

    open spec fn view(&self) -> AllocationV {
        match self {
            Allocation::Reserves { allocation } => AllocationV::Reserves { allocation: *allocation },
            Allocation::Allowance { address, amount } => AllocationV::Allowance {
                address: address@,
                amount: *amount,
            },
            Allocation::Rewards { allocation, contract } => AllocationV::Rewards {
                allocation: *allocation,
                contract: contract@,
            },
            Allocation::Staking { allocation, contract } => AllocationV::Staking {
                allocation: *allocation,
                contract: contract@,
            },
            Allocation::Application { contract, allocation, token } => AllocationV::Application {
                contract: contract@,
                allocation: *allocation,
                token: token@,
            },
            Allocation::Pool { contract, allocation, secondary_asset, token } => AllocationV::Pool {
                contract: contract@,
                allocation: *allocation,
                secondary_asset: secondary_asset@,
                token: token@,
            },
        }
    }
}

impl DeepView for Allocation {
    type V = AllocationV;

    open spec fn deep_view(&self) -> AllocationV {
        self.view()
    }
}

/// The share of inflow the entry claims: its percentage field, or zero for an
/// allowance, whose target is an absolute amount rather than a share.
pub open spec fn spec_portion(a: AllocationV) -> u128 {
    match a {
        AllocationV::Reserves { allocation } => allocation,
        AllocationV::Allowance { .. } => 0,
        AllocationV::Rewards { allocation, .. } => allocation,
        AllocationV::Staking { allocation, .. } => allocation,
        AllocationV::Application { allocation, .. } => allocation,
        AllocationV::Pool { allocation, .. } => allocation,
    }
}

/// The counterparty or destination address the entry is keyed by.
/// Reserves carry none and can never collide.
pub open spec fn spec_target(a: AllocationV) -> Option<Seq<char>> {
    match a {
        AllocationV::Reserves { .. } => None,
        AllocationV::Allowance { address, .. } => Some(address),
        AllocationV::Rewards { contract, .. } => Some(contract.address),
        AllocationV::Staking { contract, .. } => Some(contract.address),
        AllocationV::Application { contract, .. } => Some(contract.address),
        AllocationV::Pool { contract, .. } => Some(contract.address),
    }
}

/// Sum of the percentage portions of a list.
pub open spec fn spec_portion_sum(l: Seq<AllocationV>) -> int
    decreases l.len(),
{
    if l.len() == 0 {
        0
    } else {
        spec_portion_sum(l.drop_last()) + spec_portion(l.last())
    }
}

/// Index of the first entry keyed by target address `t`, if any.
pub open spec fn spec_first_match(l: Seq<AllocationV>, t: Seq<char>) -> Option<int>
    decreases l.len(),
{
    if l.len() == 0 {
        None
    } else if spec_target(l[0]) == Some(t) {
        Some(0int)
    } else {
        match spec_first_match(l.drop_first(), t) {
            Some(i) => Some(i + 1),
            None => None,
        }
    }
}

/// No two entries of the list share a target address.
pub open spec fn spec_unique_targets(l: Seq<AllocationV>) -> bool {
    forall|i: int, j: int|
        0 <= i < j < l.len() ==> ((#[trigger] spec_target(l[i])) is None || spec_target(l[i])
            != (#[trigger] spec_target(l[j])))
}

/// The allocation-list invariant: percentages sum to strictly less than 100%
/// and target addresses are pairwise distinct.
pub open spec fn spec_valid_list(l: Seq<AllocationV>) -> bool {
    &&& spec_portion_sum(l) < ALLOCATION_TOTAL as int
    &&& spec_unique_targets(l)
}

/// The list with the first entry keyed by `t` removed, if any.
pub open spec fn spec_remove_match(l: Seq<AllocationV>, t: Seq<char>) -> Seq<AllocationV> {
    match spec_first_match(l, t) {
        Some(i) => l.remove(i),
        None => l,
    }
}

/// The list with the entry that `a` would replace removed: the first entry
/// sharing `a`'s target address, if `a` has one and some entry carries it.
pub open spec fn spec_upsert_base(l: Seq<AllocationV>, a: AllocationV) -> Seq<AllocationV> {
    match spec_target(a) {
        Some(t) => spec_remove_match(l, t),
        None => l,
    }
}

/// The insert-or-replace procedure on the model: remove the entry with the
/// same target address, re-validate the percentage bound against the
/// remaining entries, and append.  Fails, leaving the list as it was, when
/// the total would reach 100%.
pub open spec fn spec_upsert(l: Seq<AllocationV>, a: AllocationV) -> Result<Seq<AllocationV>, Error> {
    let base = spec_upsert_base(l, a);
    if spec_portion_sum(base) + spec_portion(a) >= ALLOCATION_TOTAL as int {
        Err(Error::AllocationExceedsTotal)
    } else {
        Ok(base.push(a))
    }
}

pub proof fn lemma_portion_sum_nonneg(l: Seq<AllocationV>)
    ensures
        spec_portion_sum(l) >= 0,
    decreases l.len(),
{
    if l.len() > 0 {
        lemma_portion_sum_nonneg(l.drop_last());
    }
}

pub proof fn lemma_portion_sum_take_succ(l: Seq<AllocationV>, i: int)
    requires
        0 <= i < l.len(),
    ensures
        spec_portion_sum(l.take(i + 1)) == spec_portion_sum(l.take(i)) + spec_portion(l[i]),
{
    assert(l.take(i + 1).drop_last() =~= l.take(i));
    assert(l.take(i + 1).last() == l[i]);
}

pub proof fn lemma_portion_sum_take_le(l: Seq<AllocationV>, i: int)
    requires
        0 <= i <= l.len(),
    ensures
        spec_portion_sum(l.take(i)) <= spec_portion_sum(l),
    decreases l.len(),
{
    if i == l.len() {
        assert(l.take(i) =~= l);
    } else {
        assert(l.take(i) =~= l.drop_last().take(i));
        lemma_portion_sum_take_le(l.drop_last(), i);
    }
}

/// Each entry's portion is at most the whole list's sum.
pub proof fn lemma_element_le_sum(l: Seq<AllocationV>, i: int)
    requires
        0 <= i < l.len(),
    ensures
        spec_portion(l[i]) <= spec_portion_sum(l),
    decreases l.len(),
{
    if i == l.len() - 1 {
        lemma_portion_sum_nonneg(l.drop_last());
    } else {
        lemma_element_le_sum(l.drop_last(), i);
    }
}

pub proof fn lemma_portion_sum_remove(l: Seq<AllocationV>, i: int)
    requires
        0 <= i < l.len(),
    ensures
        spec_portion_sum(l.remove(i)) == spec_portion_sum(l) - spec_portion(l[i]),
    decreases l.len(),
{
    if i == l.len() - 1 {
        assert(l.remove(i) =~= l.drop_last());
    } else {
        assert(l.remove(i).drop_last() =~= l.drop_last().remove(i));
        assert(l.remove(i).last() == l.last());
        lemma_portion_sum_remove(l.drop_last(), i);
    }
}

pub proof fn lemma_portion_sum_push(l: Seq<AllocationV>, a: AllocationV)
    ensures
        spec_portion_sum(l.push(a)) == spec_portion_sum(l) + spec_portion(a),
{
    assert(l.push(a).drop_last() =~= l);
    assert(l.push(a).last() == a);
}

/// What `spec_first_match` finds is the first entry with the target.
pub proof fn lemma_first_match(l: Seq<AllocationV>, t: Seq<char>)
    ensures
        match spec_first_match(l, t) {
            Some(i) => 0 <= i < l.len() && spec_target(l[i]) == Some(t) && (forall|j: int|
                0 <= j < i ==> #[trigger] spec_target(l[j]) != Some(t)),
            None => forall|j: int| 0 <= j < l.len() ==> #[trigger] spec_target(l[j]) != Some(t),
        },
    decreases l.len(),
{
    if l.len() > 0 && spec_target(l[0]) != Some(t) {
        lemma_first_match(l.drop_first(), t);
        assert(forall|j: int|
            1 <= j < l.len() ==> #[trigger] spec_target(l[j]) == spec_target(l.drop_first()[j - 1]));
    }
}

/// Conversely, the first entry with the target is what `spec_first_match` finds.
pub proof fn lemma_first_match_at(l: Seq<AllocationV>, t: Seq<char>, i: int)
    requires
        0 <= i < l.len(),
        spec_target(l[i]) == Some(t),
        forall|j: int| 0 <= j < i ==> #[trigger] spec_target(l[j]) != Some(t),
    ensures
        spec_first_match(l, t) == Some(i),
    decreases l.len(),
{
    if i > 0 {
        assert(forall|j: int|
            0 <= j < i - 1 ==> #[trigger] spec_target(l.drop_first()[j]) == spec_target(l[j + 1]));
        lemma_first_match_at(l.drop_first(), t, i - 1);
    }
}

pub proof fn lemma_first_match_none(l: Seq<AllocationV>, t: Seq<char>)
    requires
        forall|j: int| 0 <= j < l.len() ==> #[trigger] spec_target(l[j]) != Some(t),
    ensures
        spec_first_match(l, t) is None,
    decreases l.len(),
{
    if l.len() > 0 {
        assert(forall|j: int|
            0 <= j < l.len() - 1 ==> #[trigger] spec_target(l.drop_first()[j]) == spec_target(
                l[j + 1],
            ));
        lemma_first_match_none(l.drop_first(), t);
    }
}

/// Removing an entry keeps the targets pairwise distinct.
pub proof fn lemma_unique_targets_remove(l: Seq<AllocationV>, i: int)
    requires
        spec_unique_targets(l),
        0 <= i < l.len(),
    ensures
        spec_unique_targets(l.remove(i)),
{
    let r = l.remove(i);
    assert forall|p: int, q: int|
        0 <= p < q < r.len() implies ((#[trigger] spec_target(r[p])) is None || spec_target(r[p])
        != (#[trigger] spec_target(r[q]))) by {
        let p0 = if p < i { p } else { p + 1 };
        let q0 = if q < i { q } else { q + 1 };
        assert(r[p] == l[p0]);
        assert(r[q] == l[q0]);
    }
}

/// After a successful upsert the remaining entries carry `a`'s target at most
/// once: only in the appended entry itself.
proof fn lemma_base_free_of_target(l: Seq<AllocationV>, t: Seq<char>)
    requires
        spec_unique_targets(l),
    ensures
        forall|k: int|
            0 <= k < spec_remove_match(l, t).len() ==> #[trigger] spec_target(
                spec_remove_match(l, t)[k],
            ) != Some(t),
{
    lemma_first_match(l, t);
    match spec_first_match(l, t) {
        Some(i) => {
            let r = l.remove(i);
            assert forall|k: int| 0 <= k < r.len() implies #[trigger] spec_target(r[k]) != Some(t) by {
                let k0 = if k < i { k } else { k + 1 };
                assert(r[k] == l[k0]);
                if k0 < i {
                    assert(spec_target(l[k0]) != Some(t));
                } else {
                    assert(spec_target(l[i]) == Some(t));
                    assert(spec_target(l[i]) is None || spec_target(l[i]) != spec_target(l[k0]));
                }
            }
        },
        None => {},
    }
}

/// Law of the upsert: a successful upsert preserves the allocation-list
/// invariant — in particular the percentage sum stays strictly below 100%,
/// so it does after any sequence of successful upserts.
pub proof fn lemma_upsert_preserves_valid(l: Seq<AllocationV>, a: AllocationV)
    requires
        spec_valid_list(l),
        spec_upsert(l, a) is Ok,
    ensures
        spec_valid_list(spec_upsert(l, a).unwrap()),
{
    let base = spec_upsert_base(l, a);
    let l1 = base.push(a);
    lemma_portion_sum_push(base, a);
    match spec_target(a) {
        Some(t) => {
            match spec_first_match(l, t) {
                Some(i) => {
                    lemma_first_match(l, t);
                    lemma_unique_targets_remove(l, i);
                },
                None => {},
            }
            lemma_base_free_of_target(l, t);
            assert forall|p: int, q: int|
                0 <= p < q < l1.len() implies ((#[trigger] spec_target(l1[p])) is None
                || spec_target(l1[p]) != (#[trigger] spec_target(l1[q]))) by {
                if q < l1.len() - 1 {
                    assert(l1[p] == base[p] && l1[q] == base[q]);
                } else {
                    assert(l1[p] == base[p] && l1[q] == a);
                }
            }
        },
        None => {
            assert forall|p: int, q: int|
                0 <= p < q < l1.len() implies ((#[trigger] spec_target(l1[p])) is None
                || spec_target(l1[p]) != (#[trigger] spec_target(l1[q]))) by {
                if q < l1.len() - 1 {
                    assert(l1[p] == l[p] && l1[q] == l[q]);
                } else {
                    assert(l1[p] == l[p] && l1[q] == a);
                }
            }
        },
    }
}

/// Law of the upsert: upserting an entry whose target address matches an
/// existing entry replaces it; the list length is unchanged.
pub proof fn lemma_upsert_replaces(l: Seq<AllocationV>, a: AllocationV, t: Seq<char>, k: int)
    requires
        spec_target(a) == Some(t),
        0 <= k < l.len(),
        spec_target(l[k]) == Some(t),
        spec_upsert(l, a) is Ok,
    ensures
        spec_upsert(l, a).unwrap().len() == l.len(),
{
    lemma_first_match(l, t);
    if spec_first_match(l, t) is None {
        assert(spec_target(l[k]) != Some(t));
    }
}

/// Law of the upsert: upsert is idempotent for entries that carry a target
/// address — a second upsert of the very same entry succeeds and leaves the
/// list exactly as the first one did.  (An entry without a target address, a
/// reserve, is appended anew by every upsert instead.)
pub proof fn lemma_upsert_idempotent(l: Seq<AllocationV>, a: AllocationV)
    requires
        spec_valid_list(l),
        spec_target(a) is Some,
        spec_upsert(l, a) is Ok,
    ensures
        spec_upsert(spec_upsert(l, a).unwrap(), a) == spec_upsert(l, a),
{
    let t = spec_target(a).unwrap();
    let base = spec_upsert_base(l, a);
    let l1 = base.push(a);
    lemma_base_free_of_target(l, t);
    assert(spec_target(l1[l1.len() - 1]) == Some(t));
    assert(forall|j: int| 0 <= j < l1.len() - 1 ==> #[trigger] spec_target(l1[j]) != Some(t));
    lemma_first_match_at(l1, t, l1.len() - 1);
    assert(l1.remove(l1.len() - 1) =~= base);
    assert(spec_upsert_base(l1, a) == base);
}

/// Law of the upsert: an upsert fails with `AllocationExceedsTotal` exactly
/// when the remaining entries' percentages plus the new entry's would reach
/// 100%; in particular a total of exactly `10^18` fails and `10^18 - 1`
/// succeeds.
pub proof fn lemma_upsert_total_bound(l: Seq<AllocationV>, a: AllocationV)
    ensures
        spec_upsert(l, a) == Err::<Seq<AllocationV>, Error>(Error::AllocationExceedsTotal)
            <==> spec_portion_sum(spec_upsert_base(l, a)) + spec_portion(a)
            >= ALLOCATION_TOTAL as int,
        spec_upsert(l, a) is Err ==> spec_upsert(l, a)
            == Err::<Seq<AllocationV>, Error>(Error::AllocationExceedsTotal),
{
}

/// The percentage portion of one entry.
pub fn portion(a: &Allocation) -> (r: u128)
    ensures
        r == spec_portion(a@),
{
    match a {
        Allocation::Reserves { allocation } => *allocation,
        Allocation::Allowance { .. } => 0,
        Allocation::Rewards { allocation, .. } => *allocation,
        Allocation::Staking { allocation, .. } => *allocation,
        Allocation::Application { allocation, .. } => *allocation,
        Allocation::Pool { allocation, .. } => *allocation,
    }
}

/// The target address of one entry, shared by the replace-scan and the
/// percentage recomputation.
pub fn target_address(a: &Allocation) -> (r: Option<&String>)
    ensures
        match r {
            Some(s) => spec_target(a@) == Some(s@),
            None => spec_target(a@) is None,
        },
{
    match a {
        Allocation::Reserves { .. } => None,
        Allocation::Allowance { address, .. } => Some(address),
        Allocation::Rewards { contract, .. } => Some(&contract.address),
        Allocation::Staking { contract, .. } => Some(&contract.address),
        Allocation::Application { contract, .. } => Some(&contract.address),
        Allocation::Pool { contract, .. } => Some(&contract.address),
    }
}

/// Insert or replace `entry` in `list`: the only mutation path for an
/// allocation list.  Atomic: either the entry now stands at the end of the
/// list, with any previous entry for the same target address removed and the
/// percentage bound re-validated, or the list is exactly as it was.
pub fn upsert_entry(list: &mut Vec<Allocation>, entry: Allocation) -> (r: Result<(), Error>)
    requires
        spec_valid_list(old(list).deep_view()),
    ensures
        match spec_upsert(old(list).deep_view(), entry@) {
            Ok(l1) => r == Ok::<(), Error>(()) && final(list).deep_view() == l1,
            Err(e) => r == Err::<(), Error>(e) && final(list).deep_view() == old(list).deep_view(),
        },
        spec_valid_list(final(list).deep_view()),
{
    let ghost lv = list.deep_view();
    let ghost ev = entry@;
    // Scan for an existing entry keyed by the same target address.
    let mut matched: Option<usize> = None;
    match target_address(&entry) {
        None => {
            proof {
                assert(spec_upsert_base(lv, ev) == lv);
            }
        },
        Some(t) => {
            let mut i: usize = 0;
            let n = list.len();
            while i < n
                invariant_except_break
                    matched is None,
                invariant
                    n == list.len(),
                    0 <= i <= n,
                    lv == list.deep_view(),
                    spec_target(ev) == Some(t@),
                    forall|j: int| 0 <= j < i ==> #[trigger] spec_target(lv[j]) != Some(t@),
                ensures
                    match matched {
                        Some(m) => m < n && spec_target(lv[m as int]) == Some(t@) && (forall|
                            j: int,
                        |
                            0 <= j < m ==> #[trigger] spec_target(lv[j]) != Some(t@)),
                        None => forall|j: int|
                            0 <= j < n ==> #[trigger] spec_target(lv[j]) != Some(t@),
                    },
                decreases n - i,
            {
                assert(lv[i as int] == list[i as int]@);
                match target_address(&list[i]) {
                    Some(s) => {
                        if *s == *t {
                            matched = Some(i);
                            break;
                        }
                    },
                    None => {},
                }
                i += 1;
            }
            proof {
                match matched {
                    Some(m) => {
                        lemma_first_match_at(lv, t@, m as int);
                    },
                    None => {
                        lemma_first_match_none(lv, t@);
                        assert(spec_upsert_base(lv, ev) == lv);
                    },
                }
            }
        },
    }
    let ghost base = spec_upsert_base(lv, ev);
    // Sum the percentages of all current entries.
    let mut total: u128 = 0;
    let mut i: usize = 0;
    let n = list.len();
    while i < n
        invariant
            n == list.len(),
            0 <= i <= n,
            lv == list.deep_view(),
            spec_valid_list(lv),
            total == spec_portion_sum(lv.take(i as int)),
        decreases n - i,
    {
        assert(lv[i as int] == list[i as int]@);
        let p = portion(&list[i]);
        proof {
            lemma_portion_sum_take_succ(lv, i as int);
            lemma_portion_sum_take_le(lv, i as int + 1);
        }
        total = total + p;
        i += 1;
    }
    assert(lv.take(n as int) =~= lv);
    // Exclude the replaced entry's portion before re-validating the bound.
    let base_sum: u128 = match matched {
        Some(m) => {
            assert(lv[m as int] == list[m as int]@);
            let pm = portion(&list[m]);
            proof {
                lemma_element_le_sum(lv, m as int);
                lemma_portion_sum_remove(lv, m as int);
            }
            total - pm
        },
        None => total,
    };
    assert(base_sum == spec_portion_sum(base));
    let p_new = portion(&entry);
    if p_new >= ALLOCATION_TOTAL || base_sum + p_new >= ALLOCATION_TOTAL {
        proof {
            lemma_portion_sum_nonneg(base);
        }
        return Err(Error::AllocationExceedsTotal);
    }
    // Validated: replace and append.
    if let Some(m) = matched {
        list.remove(m);
        assert(list.deep_view() =~= lv.remove(m as int));
    }
    list.push(entry);
    proof {
        assert(list.deep_view() =~= base.push(ev));
        lemma_upsert_preserves_valid(lv, ev);
    }
    Ok(())
}

} // verus!
