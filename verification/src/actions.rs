//! Outbound actions: the intents an operation returns for the surrounding
//! execution environment to carry out after the operation has committed.
//!
//! The engine never performs transfers or queries itself; it only decides
//! them.  Each action carries the asset contract it is addressed to.

use vstd::prelude::*;

use crate::allocations::{spec_portion, spec_portion_sum, AllocationV};
use crate::assets::{Contract, ContractV, Snip20AssetV};
use crate::math::{lemma_div_sum_le, lemma_scale_le};
use crate::ALLOCATION_TOTAL;

verus! {

/// One outbound intent.
#[derive(Clone, Debug, PartialEq, Eq)]
pub enum Action {
    /// Transfer `amount` of the asset to `recipient`.
    Send { asset: Contract, recipient: String, amount: u128 },
    /// Raise the standing allowance of `spender` on the asset by `amount`.
    IncreaseAllowance { asset: Contract, spender: String, amount: u128, expiration: Option<u64> },
    /// Lower the standing allowance of `spender` on the asset by `amount`.
    DecreaseAllowance { asset: Contract, spender: String, amount: u128 },
    /// Subscribe the treasury, whose code hash is `receiver_code_hash`, to
    /// the asset's transfer notifications.
    RegisterReceive { asset: Contract, receiver_code_hash: String },
    /// Register the treasury's view credential with the asset.
    SetViewingKey { asset: Contract, key: String },
}

/// Mathematical model of an [`Action`].
#[verifier::ext_equal]
pub enum ActionV {
    Send { asset: ContractV, recipient: Seq<char>, amount: u128 },
    IncreaseAllowance { asset: ContractV, spender: Seq<char>, amount: u128, expiration: Option<u64> },
    DecreaseAllowance { asset: ContractV, spender: Seq<char>, amount: u128 },
    RegisterReceive { asset: ContractV, receiver_code_hash: Seq<char> },
    SetViewingKey { asset: ContractV, key: Seq<char> },
}

impl View for Action {
    type V = ActionV;

    open spec fn view(&self) -> ActionV {
        match self {
            Action::Send { asset, recipient, amount } => ActionV::Send {
                asset: asset@,
                recipient: recipient@,
                amount: *amount,
            },
            Action::IncreaseAllowance { asset, spender, amount, expiration } => ActionV::IncreaseAllowance {
                asset: asset@,
                spender: spender@,
                amount: *amount,
                expiration: *expiration,
            },
            Action::DecreaseAllowance { asset, spender, amount } => ActionV::DecreaseAllowance {
                asset: asset@,
                spender: spender@,
                amount: *amount,
            },
            Action::RegisterReceive { asset, receiver_code_hash } => ActionV::RegisterReceive {
                asset: asset@,
                receiver_code_hash: receiver_code_hash@,
            },
            Action::SetViewingKey { asset, key } => ActionV::SetViewingKey {
                asset: asset@,
                key: key@,
            },
        }
    }
}

impl DeepView for Action {
    type V = ActionV;

    open spec fn deep_view(&self) -> ActionV {
        self.view()
    }
}

/// The amount an action transfers away: its `Send` amount, zero otherwise.
/// Allowance deltas move no funds by themselves.
pub open spec fn spec_send_amount(a: ActionV) -> int {
    match a {
        ActionV::Send { amount, .. } => amount as int,
        _ => 0,
    }
}

/// Total amount transferred away by a list of actions.
pub open spec fn spec_send_sum(l: Seq<ActionV>) -> int
    decreases l.len(),
{
    if l.len() == 0 {
        0
    } else {
        spec_send_sum(l.drop_last()) + spec_send_amount(l.last())
    }
}

/// The actions one allocation entry contributes for an inbound `amount`:
/// rewards and staking forward their truncated share immediately; reserves,
/// allowances and the inert application/pool strategies forward nothing.
pub open spec fn spec_route_one(asset: Snip20AssetV, a: AllocationV, amount: u128) -> Seq<ActionV> {
    match a {
        AllocationV::Rewards { allocation, contract } => seq![
            ActionV::Send {
                asset: asset.contract,
                recipient: contract.address,
                amount: (amount as int * allocation as int / ALLOCATION_TOTAL as int) as u128,
            },
        ],
        AllocationV::Staking { allocation, contract } => seq![
            ActionV::Send {
                asset: asset.contract,
                recipient: contract.address,
                amount: (amount as int * allocation as int / ALLOCATION_TOTAL as int) as u128,
            },
        ],
        _ => Seq::empty(),
    }
}

/// The actions an inbound transfer of `amount` produces, entry by entry in
/// list order.
pub open spec fn spec_route(asset: Snip20AssetV, l: Seq<AllocationV>, amount: u128) -> Seq<ActionV>
    decreases l.len(),
{
    if l.len() == 0 {
        Seq::empty()
    } else {
        spec_route(asset, l.drop_last(), amount) + spec_route_one(asset, l.last(), amount)
    }
}

pub proof fn lemma_send_sum_concat(a: Seq<ActionV>, b: Seq<ActionV>)
    ensures
        spec_send_sum(a + b) == spec_send_sum(a) + spec_send_sum(b),
    decreases b.len(),
{
    if b.len() == 0 {
        assert(a + b =~= a);
    } else {
        assert((a + b).drop_last() =~= a + b.drop_last());
        assert((a + b).last() == b.last());
        lemma_send_sum_concat(a, b.drop_last());
    }
}

/// The forwarded total is at most the inbound amount scaled by the summed
/// percentages, remainders truncated.
proof fn lemma_route_sum(asset: Snip20AssetV, l: Seq<AllocationV>, amount: u128)
    requires
        spec_portion_sum(l) < ALLOCATION_TOTAL as int,
    ensures
        0 <= spec_send_sum(spec_route(asset, l, amount)) <= amount as int * spec_portion_sum(l)
            / ALLOCATION_TOTAL as int,
    decreases l.len(),
{
    let t = ALLOCATION_TOTAL as int;
    if l.len() == 0 {
    } else {
        let dl = l.drop_last();
        let a = l.last();
        crate::allocations::lemma_element_le_sum(l, l.len() - 1);
        lemma_route_sum(asset, dl, amount);
        lemma_send_sum_concat(spec_route(asset, dl, amount), spec_route_one(asset, a, amount));
        crate::allocations::lemma_portion_sum_nonneg(dl);
        assert(spec_send_sum(spec_route_one(asset, a, amount)) <= amount as int * spec_portion(a)
            as int / t && spec_send_sum(spec_route_one(asset, a, amount)) >= 0) by {
            let s = spec_route_one(asset, a, amount);
            assert(spec_send_sum(Seq::<ActionV>::empty()) == 0);
            match a {
                AllocationV::Rewards { allocation, .. } => {
                    lemma_scale_le(amount as int, allocation as int, t);
                    assert(s.drop_last() =~= Seq::<ActionV>::empty());
                    assert(spec_send_sum(s) == spec_send_amount(s.last()));
                },
                AllocationV::Staking { allocation, .. } => {
                    lemma_scale_le(amount as int, allocation as int, t);
                    assert(s.drop_last() =~= Seq::<ActionV>::empty());
                    assert(spec_send_sum(s) == spec_send_amount(s.last()));
                },
                _ => {
                    vstd::arithmetic::div_mod::lemma_div_pos_is_pos(
                        amount as int * spec_portion(a) as int,
                        t,
                    );
                    assert(amount as int * spec_portion(a) as int >= 0) by (nonlinear_arith);
                },
            }
        }
        lemma_div_sum_le(
            amount as int * spec_portion_sum(dl),
            amount as int * spec_portion(a) as int,
            t,
        );
        assert(amount as int * spec_portion_sum(dl) + amount as int * spec_portion(a) as int
            == amount as int * spec_portion_sum(l)) by (nonlinear_arith)
            requires
                spec_portion_sum(l) == spec_portion_sum(dl) + spec_portion(a) as int,
        ;
        assert(amount as int * spec_portion_sum(dl) >= 0) by (nonlinear_arith)
            requires
                spec_portion_sum(dl) >= 0,
        ;
    }
}

/// Law of the router: for any allocation list whose percentages sum below
/// 100%, the amounts forwarded for one inbound transfer never exceed the
/// amount received — truncation rounds each share down, for any amount,
/// including zero and one.
pub proof fn lemma_route_bounded(asset: Snip20AssetV, l: Seq<AllocationV>, amount: u128)
    requires
        spec_portion_sum(l) < ALLOCATION_TOTAL as int,
    ensures
        0 <= spec_send_sum(spec_route(asset, l, amount)) <= amount,
{
    lemma_route_sum(asset, l, amount);
    crate::allocations::lemma_portion_sum_nonneg(l);
    lemma_scale_le(amount as int, spec_portion_sum(l), ALLOCATION_TOTAL as int);
}

} // verus!
