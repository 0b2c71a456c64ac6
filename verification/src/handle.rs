//! The treasury operations: registration, configuration, inbound-transfer
//! routing, and the monthly allowance refresh.
//!
//! Each operation runs to completion transactionally: on any error the state
//! is left exactly as it was.  Outbound effects are returned as
//! [`Action`] lists; external reads (asset metadata, balance and allowance
//! queries) are taken as arguments, already decoded to plain values by the
//! caller.

use vstd::prelude::*;

use crate::actions::{
    lemma_route_bounded, spec_route, spec_send_sum, Action, ActionV,
};
use crate::allocations::{
    lemma_element_le_sum, spec_portion_sum, upsert_entry, Allocation, AllocationV,
};
use crate::assets::{Contract, Snip20Asset, TokenInfo};
use crate::calendar::{
    refresh_gate, rfc3339_of_timestamp, rfc3339_year_month, spec_refresh_gate,
    timestamp_to_rfc3339, timestamp_year_month,
};
use crate::math::{lemma_scale_le, multiply_ratio};
use crate::state::{
    lemma_find_asset_at, lemma_find_asset_none, spec_allowances, spec_allowances_of,
    spec_delta_actions, spec_find_asset, spec_init_allocations, spec_refresh_actions,
    spec_register_allocation, spec_register_asset, AllowanceTarget, AllowanceTargetV, AssetEntry,
    AssetEntryV, Config, Treasury, TreasuryV,
};
use crate::Error;
use crate::ALLOCATION_TOTAL;

verus! {

/// Whether a transfer notification's decoded flag marks the funds as
/// intentionally uncommitted: exactly the marker `"unallocated"` does.  The
/// caller decodes the notification's binary payload and hands the flag
/// string here; the result is what [`Treasury::receive`] takes.
pub fn is_unallocated_flag(flag: &String) -> (r: bool)
    ensures
        r == (flag@ == "unallocated"@),
{
    let marker: String = "unallocated".to_owned();
    *flag == marker
}

/// Index of the registered asset whose address is `addr`, if any.
fn find_asset_index(assets: &Vec<AssetEntry>, addr: &String) -> (r: Option<usize>)
    ensures
        match r {
            Some(k) => spec_find_asset(assets.deep_view(), addr@) == Some(k as int) && k
                < assets.len() && assets.deep_view()[k as int].asset.contract.address == addr@,
            None => spec_find_asset(assets.deep_view(), addr@) is None,
        },
{
    let ghost av = assets.deep_view();
    let n = assets.len();
    let mut found: Option<usize> = None;
    let mut i: usize = 0;
    while i < n
        invariant_except_break
            found is None,
        invariant
            n == assets.len(),
            0 <= i <= n,
            av == assets.deep_view(),
            forall|j: int| 0 <= j < i ==> (#[trigger] av[j]).asset.contract.address != addr@,
        ensures
            match found {
                Some(k) => k < n && av[k as int].asset.contract.address == addr@ && (forall|
                    j: int,
                |
                    0 <= j < k ==> (#[trigger] av[j]).asset.contract.address != addr@),
                None => forall|j: int|
                    0 <= j < n ==> (#[trigger] av[j]).asset.contract.address != addr@,
            },
        decreases n - i,
    {
        assert(av[i as int] == assets[i as int]@);
        if assets[i].asset.contract.address == *addr {
            found = Some(i);
            break;
        }
        i += 1;
    }
    proof {
        match found {
            Some(k) => lemma_find_asset_at(av, addr@, k as int),
            None => lemma_find_asset_none(av, addr@),
        }
    }
    found
}

impl Treasury {
    /// A fresh treasury with no registered assets.
    pub fn new(
        config: Config,
        viewing_key: String,
        contract_code_hash: String,
        last_allowance_refresh: String,
    ) -> (t: Treasury)
        ensures
            t@ == (TreasuryV {
                config: config@,
                viewing_key: viewing_key@,
                contract_code_hash: contract_code_hash@,
                last_allowance_refresh: last_allowance_refresh@,
                assets: Seq::<AssetEntryV>::empty(),
            }),
            t@.wf(),
    {
        let t = Treasury {
            config,
            viewing_key,
            contract_code_hash,
            last_allowance_refresh,
            assets: Vec::new(),
        };
        proof {
            assert(t@.assets =~= Seq::<AssetEntryV>::empty());
        }
        t
    }

    /// Replace the configuration.  Admin only; on `Unauthorized` nothing
    /// changes.
    pub fn try_update_config(&mut self, sender: &String, config: Config) -> (r: Result<(), Error>)
        ensures
            sender@ != old(self)@.config.admin ==> r == Err::<(), Error>(Error::Unauthorized)
                && final(self)@ == old(self)@,
            sender@ == old(self)@.config.admin ==> r == Ok::<(), Error>(()) && final(self)@
                == (TreasuryV { config: config@, ..old(self)@ }),
            old(self)@.wf() ==> final(self)@.wf(),
    {
        if *sender != self.config.admin {
            return Err(Error::Unauthorized);
        }
        self.config = config;
        Ok(())
    }

    /// A single immediate allowance grant outside the monthly cycle: emit
    /// an increase of `amount` for `spender` on the asset, with an optional
    /// expiration.  Admin only; the asset must be registered.  Reads state
    /// only.
    pub fn one_time_allowance(
        &self,
        sender: &String,
        asset: &String,
        spender: &String,
        amount: u128,
        expiration: Option<u64>,
    ) -> (r: Result<Vec<Action>, Error>)
        ensures
            sender@ != self@.config.admin ==> (r matches Err(e) && e == Error::Unauthorized),
            sender@ == self@.config.admin && spec_find_asset(self@.assets, asset@) is None ==> (
            r matches Err(e) && e == Error::UnregisteredAsset),
            sender@ == self@.config.admin ==> (match spec_find_asset(self@.assets, asset@) {
                Some(k) => r matches Ok(v) && v.deep_view() == seq![
                    ActionV::IncreaseAllowance {
                        asset: self@.assets[k].asset.contract,
                        spender: spender@,
                        amount: amount,
                        expiration: expiration,
                    },
                ],
                None => r is Err,
            }),
    {
        if *sender != self.config.admin {
            return Err(Error::Unauthorized);
        }
        let k = match find_asset_index(&self.assets, asset) {
            None => {
                return Err(Error::UnregisteredAsset);
            },
            Some(k) => k,
        };
        assert(self@.assets[k as int] == self.assets[k as int]@);
        let full_asset = &self.assets[k].asset;
        let mut actions: Vec<Action> = Vec::new();
        actions.push(
            Action::IncreaseAllowance {
                asset: Contract {
                    address: full_asset.contract.address.clone(),
                    code_hash: full_asset.contract.code_hash.clone(),
                },
                spender: spender.clone(),
                amount,
                expiration,
            },
        );
        proof {
            assert(actions.deep_view() =~= seq![
                ActionV::IncreaseAllowance {
                    asset: self@.assets[k as int].asset.contract,
                    spender: spender@,
                    amount: amount,
                    expiration: expiration,
                },
            ]);
        }
        Ok(actions)
    }

    /// Route one inbound transfer: split `amount` across the sending
    /// asset's allocation list and return the forwarding actions, in list
    /// order.  A transfer flagged as unallocated is left uncommitted and
    /// produces no actions at all.  Reads state only; the forwarded total
    /// never exceeds the amount received.
    pub fn receive(&self, sender: &String, amount: u128, unallocated: bool) -> (r: Result<
        Vec<Action>,
        Error,
    >)
        requires
            self@.wf(),
        ensures
            unallocated ==> (r matches Ok(v) && v.deep_view() == Seq::<ActionV>::empty()),
            !unallocated && spec_find_asset(self@.assets, sender@) is None ==> (r matches Err(e)
                && e == Error::UnregisteredAsset),
            !unallocated ==> (match spec_find_asset(self@.assets, sender@) {
                Some(k) => r matches Ok(v) && v.deep_view() == spec_route(
                    self@.assets[k].asset,
                    self@.assets[k].allocations,
                    amount,
                ),
                None => r is Err,
            }),
            r matches Ok(v) ==> spec_send_sum(v.deep_view()) <= amount,
    {
        if unallocated {
            let empty: Vec<Action> = Vec::new();
            proof {
                assert(empty.deep_view() =~= Seq::<ActionV>::empty());
            }
            return Ok(empty);
        }
        let k = match find_asset_index(&self.assets, sender) {
            None => {
                return Err(Error::UnregisteredAsset);
            },
            Some(k) => k,
        };
        assert(self@.assets[k as int] == self.assets[k as int]@);
        let ghost ev = self@.assets[k as int];
        let entry = &self.assets[k];
        let mut actions: Vec<Action> = Vec::new();
        let m = entry.allocations.len();
        let mut j: usize = 0;
        proof {
            assert(actions.deep_view() =~= Seq::<ActionV>::empty());
            assert(ev.allocations.take(0) =~= Seq::<AllocationV>::empty());
        }
        while j < m
            invariant
                self@.wf(),
                0 <= j <= m,
                k < self@.assets.len(),
                ev == self@.assets[k as int],
                m == entry.allocations.len(),
                entry == &self.assets[k as int],
                entry@ == ev,
                actions.deep_view() == spec_route(ev.asset, ev.allocations.take(j as int), amount),
            decreases m - j,
        {
            assert(ev.allocations[j as int] == entry.allocations[j as int]@);
            let ghost acts0 = actions.deep_view();
            match &entry.allocations[j] {
                Allocation::Rewards { allocation, contract } => {
                    proof {
                        lemma_element_le_sum(ev.allocations, j as int);
                        lemma_scale_le(amount as int, *allocation as int, ALLOCATION_TOTAL as int);
                    }
                    let forwarded = multiply_ratio(amount, *allocation, ALLOCATION_TOTAL);
                    actions.push(
                        Action::Send {
                            asset: Contract {
                                address: entry.asset.contract.address.clone(),
                                code_hash: entry.asset.contract.code_hash.clone(),
                            },
                            recipient: contract.address.clone(),
                            amount: forwarded.unwrap(),
                        },
                    );
                },
                Allocation::Staking { allocation, contract } => {
                    proof {
                        lemma_element_le_sum(ev.allocations, j as int);
                        lemma_scale_le(amount as int, *allocation as int, ALLOCATION_TOTAL as int);
                    }
                    let forwarded = multiply_ratio(amount, *allocation, ALLOCATION_TOTAL);
                    actions.push(
                        Action::Send {
                            asset: Contract {
                                address: entry.asset.contract.address.clone(),
                                code_hash: entry.asset.contract.code_hash.clone(),
                            },
                            recipient: contract.address.clone(),
                            amount: forwarded.unwrap(),
                        },
                    );
                },
                _ => {},
            }
            proof {
                assert(ev.allocations.take(j + 1).drop_last() =~= ev.allocations.take(j as int));
                assert(ev.allocations.take(j + 1).last() == ev.allocations[j as int]);
                assert(actions.deep_view() =~= acts0 + crate::actions::spec_route_one(
                    ev.asset,
                    ev.allocations[j as int],
                    amount,
                ));
            }
            j += 1;
        }
        proof {
            assert(ev.allocations.take(m as int) =~= ev.allocations);
            lemma_route_bounded(ev.asset, ev.allocations, amount);
        }
        Ok(actions)
    }

    /// Register an asset: store its record, initialize its allocation list
    /// to the optional reserve entry, and emit the transfer-notification
    /// subscription and view-credential registration addressed to the
    /// asset.  Admin only.  Re-registration overwrites the record and
    /// resets the allocation list; the initial reserve percentage is held
    /// to the same strict 100% bound as every other mutation.
    pub fn try_register_asset(
        &mut self,
        sender: &String,
        contract: &Contract,
        token_info: TokenInfo,
        reserves: Option<u128>,
    ) -> (r: Result<Vec<Action>, Error>)
        requires
            old(self)@.wf(),
        ensures
            match spec_register_asset(old(self)@, sender@, contract@, token_info@, reserves) {
                Ok(pair) => r matches Ok(v) && final(self)@ == pair.0 && v.deep_view() == pair.1,
                Err(e) => r matches Err(e2) && e2 == e && final(self)@ == old(self)@,
            },
            final(self)@.wf(),
    {
        let ghost t0 = self@;
        if *sender != self.config.admin {
            return Err(Error::Unauthorized);
        }
        if let Some(r0) = reserves {
            if r0 >= ALLOCATION_TOTAL {
                return Err(Error::AllocationExceedsTotal);
            }
        }
        let mut allocs: Vec<Allocation> = Vec::new();
        match reserves {
            Some(r0) => allocs.push(Allocation::Reserves { allocation: r0 }),
            None => {},
        }
        proof {
            assert(allocs.deep_view() =~= spec_init_allocations(reserves));
            let s = spec_init_allocations(reserves);
            match reserves {
                Some(r0) => {
                    assert(spec_portion_sum(Seq::<AllocationV>::empty()) == 0);
                    assert(s.drop_last() =~= Seq::<AllocationV>::empty());
                    assert(spec_portion_sum(s) == 0 + crate::allocations::spec_portion(s.last()));
                },
                None => {
                    assert(spec_portion_sum(s) == 0);
                },
            }
            assert(crate::allocations::spec_valid_list(s));
        }
        let entry = AssetEntry {
            asset: Snip20Asset {
                contract: Contract {
                    address: contract.address.clone(),
                    code_hash: contract.code_hash.clone(),
                },
                token_info,
            },
            allocations: allocs,
        };
        let ghost entry_v = entry@;
        assert(crate::allocations::spec_valid_list(entry_v.allocations));
        match find_asset_index(&self.assets, &contract.address) {
            Some(k) => {
                self.assets.remove(k);
                self.assets.insert(k, entry);
                proof {
                    assert(self.assets.deep_view() =~= t0.assets.update(k as int, entry_v));
                }
            },
            None => {
                self.assets.push(entry);
                proof {
                    assert(self.assets.deep_view() =~= t0.assets.push(entry_v));
                }
            },
        }
        let mut actions: Vec<Action> = Vec::new();
        actions.push(
            Action::RegisterReceive {
                asset: Contract {
                    address: contract.address.clone(),
                    code_hash: contract.code_hash.clone(),
                },
                receiver_code_hash: self.contract_code_hash.clone(),
            },
        );
        actions.push(
            Action::SetViewingKey {
                asset: Contract {
                    address: contract.address.clone(),
                    code_hash: contract.code_hash.clone(),
                },
                key: self.viewing_key.clone(),
            },
        );
        proof {
            crate::state::lemma_find_asset(t0.assets, contract@.address);
            let pair = spec_register_asset(t0, sender@, contract@, token_info@, reserves).unwrap();
            assert(actions.deep_view() =~= pair.1);
            assert(self@ =~~= pair.0);
            let s1 = self@.assets;
            assert forall|i: int, j: int|
                #![trigger s1[i], s1[j]]
                0 <= i < j < s1.len() implies s1[i].asset.contract.address
                != s1[j].asset.contract.address by {
                match spec_find_asset(t0.assets, contract@.address) {
                    Some(k) => {
                        assert(s1 =~= t0.assets.update(k, entry_v));
                        assert(t0.assets[k].asset.contract.address == contract@.address);
                        assert(s1[i].asset.contract.address == t0.assets[i].asset.contract.address);
                        assert(s1[j].asset.contract.address == t0.assets[j].asset.contract.address);
                    },
                    None => {
                        assert(s1 =~= t0.assets.push(entry_v));
                        if j < t0.assets.len() {
                            assert(s1[i] == t0.assets[i] && s1[j] == t0.assets[j]);
                        } else {
                            assert(s1[i] == t0.assets[i]);
                            assert(s1[j].asset.contract.address == contract@.address);
                        }
                    },
                }
            }
            assert forall|i: int|
                0 <= i < s1.len() implies crate::allocations::spec_valid_list(
                (#[trigger] s1[i]).allocations,
            ) by {
                match spec_find_asset(t0.assets, contract@.address) {
                    Some(k) => {
                        assert(s1 =~= t0.assets.update(k, entry_v));
                        if i != k {
                            assert(s1[i] == t0.assets[i]);
                        }
                    },
                    None => {
                        assert(s1 =~= t0.assets.push(entry_v));
                        if i < t0.assets.len() {
                            assert(s1[i] == t0.assets[i]);
                        }
                    },
                }
            }
        }
        Ok(actions)
    }

    /// Insert or replace one allocation entry for a registered asset — the
    /// only mutation path for an allocation list.  Admin only; `balance` is
    /// the asset's decoded liquid-balance reply, advisory for now, `None`
    /// when the reply had an unexpected shape.  Atomic: on any error the
    /// state is exactly as it was.
    pub fn register_allocation(
        &mut self,
        sender: &String,
        asset: &String,
        alloc: Allocation,
        balance: Option<u128>,
    ) -> (r: Result<(), Error>)
        requires
            old(self)@.wf(),
        ensures
            match spec_register_allocation(old(self)@, sender@, asset@, alloc@, balance) {
                Ok(t1) => r == Ok::<(), Error>(()) && final(self)@ == t1,
                Err(e) => r == Err::<(), Error>(e) && final(self)@ == old(self)@,
            },
            final(self)@.wf(),
    {
        let ghost t0 = self@;
        if *sender != self.config.admin {
            return Err(Error::Unauthorized);
        }
        let k = match find_asset_index(&self.assets, asset) {
            None => {
                return Err(Error::UnregisteredAsset);
            },
            Some(k) => k,
        };
        if balance.is_none() {
            return Err(Error::UnexpectedQueryResponse);
        }
        let ghost av = alloc@;
        let mut entry = self.assets.remove(k);
        assert(entry@ == t0.assets[k as int]);
        let res = upsert_entry(&mut entry.allocations, alloc);
        let ghost entry_v = AssetEntryV {
            asset: t0.assets[k as int].asset,
            allocations: entry.allocations.deep_view(),
        };
        assert(entry@ == entry_v);
        self.assets.insert(k, entry);
        proof {
            assert(self.assets.deep_view() =~= t0.assets.update(k as int, entry_v));
        }
        match res {
            Err(e) => {
                proof {
                    assert(entry_v =~= t0.assets[k as int]);
                    assert(self@ =~~= t0);
                }
                Err(e)
            },
            Ok(()) => {
                proof {
                    let t1 = spec_register_allocation(t0, sender@, asset@, av, balance).unwrap();
                    assert(self@ =~~= t1);
                    assert forall|i: int|
                        0 <= i < self@.assets.len() implies crate::allocations::spec_valid_list(
                        (#[trigger] self@.assets[i]).allocations,
                    ) by {
                        if i != k as int {
                            assert(self@.assets[i] == t0.assets[i]);
                        }
                    }
                }
                Ok(())
            },
        }
    }

    /// The standing credit lines to reconcile, in refresh order: assets in
    /// registration order, entries in list order.  The caller queries the
    /// live allowance of each and hands the replies to the refresh in the
    /// same order.
    pub fn allowance_targets(&self) -> (r: Vec<AllowanceTarget>)
        ensures
            r.deep_view() == spec_allowances(self@.assets),
    {
        let mut targets: Vec<AllowanceTarget> = Vec::new();
        let n = self.assets.len();
        let mut i: usize = 0;
        proof {
            assert(targets.deep_view() =~= Seq::<AllowanceTargetV>::empty());
            assert(self@.assets.take(0) =~= Seq::<AssetEntryV>::empty());
        }
        while i < n
            invariant
                n == self.assets.len(),
                n == self@.assets.len(),
                0 <= i <= n,
                targets.deep_view() == spec_allowances(self@.assets.take(i as int)),
            decreases n - i,
        {
            let entry = &self.assets[i];
            let ghost ev = self@.assets[i as int];
            assert(ev == entry@);
            let m = entry.allocations.len();
            let mut j: usize = 0;
            proof {
                assert(ev.allocations.take(0) =~= Seq::<AllocationV>::empty());
            }
            while j < m
                invariant
                    0 <= j <= m,
                    i < n,
                    n == self.assets.len(),
                    n == self@.assets.len(),
                    entry == &self.assets[i as int],
                    ev == self@.assets[i as int],
                    ev == entry@,
                    m == entry.allocations.len(),
                    targets.deep_view() == spec_allowances(self@.assets.take(i as int))
                        + spec_allowances_of(ev.asset.contract, ev.allocations.take(j as int)),
                decreases m - j,
            {
                assert(ev.allocations[j as int] == entry.allocations[j as int]@);
                let ghost tg0 = targets.deep_view();
                match &entry.allocations[j] {
                    Allocation::Allowance { address, amount } => {
                        targets.push(
                            AllowanceTarget {
                                asset: Contract {
                                    address: entry.asset.contract.address.clone(),
                                    code_hash: entry.asset.contract.code_hash.clone(),
                                },
                                spender: address.clone(),
                                amount: *amount,
                            },
                        );
                    },
                    _ => {},
                }
                proof {
                    assert(ev.allocations.take(j + 1).drop_last() =~= ev.allocations.take(
                        j as int,
                    ));
                    assert(ev.allocations.take(j + 1).last() == ev.allocations[j as int]);
                    match ev.allocations[j as int] {
                        AllocationV::Allowance { address, amount } => {
                            assert(targets.deep_view() =~= tg0 + seq![
                                AllowanceTargetV {
                                    asset: ev.asset.contract,
                                    spender: address,
                                    amount,
                                },
                            ]);
                        },
                        _ => {
                            assert(targets.deep_view() =~= tg0 + Seq::<AllowanceTargetV>::empty());
                        },
                    }
                    assert(targets.deep_view() =~= spec_allowances(self@.assets.take(i as int))
                        + spec_allowances_of(ev.asset.contract, ev.allocations.take(j + 1)));
                }
                j += 1;
            }
            proof {
                assert(ev.allocations.take(m as int) =~= ev.allocations);
                assert(self@.assets.take(i + 1).drop_last() =~= self@.assets.take(i as int));
                assert(self@.assets.take(i + 1).last() == ev);
                assert(targets.deep_view() =~= spec_allowances(self@.assets.take(i + 1)));
            }
            i += 1;
        }
        proof {
            assert(self@.assets.take(n as int) =~= self@.assets);
        }
        targets
    }

    /// Compute the corrective allowance actions: one increase or decrease
    /// per credit line whose live allowance differs from its target, in
    /// refresh order.  `lives` pairs with the credit lines positionally; a
    /// reply list of the wrong length is rejected whole, so no credit line
    /// is ever silently skipped.  Reads state only.
    pub fn do_allowance_refresh(&self, lives: &Vec<u128>) -> (r: Result<Vec<Action>, Error>)
        ensures
            lives@.len() != spec_allowances(self@.assets).len() ==> (r matches Err(e) && e
                == Error::UnexpectedQueryResponse),
            lives@.len() == spec_allowances(self@.assets).len() ==> (r matches Ok(v)
                && v.deep_view() == spec_refresh_actions(spec_allowances(self@.assets), lives@)),
    {
        let targets = self.allowance_targets();
        let ghost pairs = spec_allowances(self@.assets);
        if lives.len() != targets.len() {
            return Err(Error::UnexpectedQueryResponse);
        }
        let mut actions: Vec<Action> = Vec::new();
        let n = targets.len();
        let mut i: usize = 0;
        proof {
            assert(actions.deep_view() =~= Seq::<ActionV>::empty());
            assert(pairs.take(0) =~= Seq::<AllowanceTargetV>::empty());
        }
        while i < n
            invariant
                0 <= i <= n,
                n == targets.len(),
                lives@.len() == n,
                targets.deep_view() == pairs,
                pairs.len() == n,
                actions.deep_view() == spec_refresh_actions(
                    pairs.take(i as int),
                    lives@.take(i as int),
                ),
            decreases n - i,
        {
            let t = &targets[i];
            assert(t@ == pairs[i as int]);
            let live = lives[i];
            let ghost acts0 = actions.deep_view();
            if t.amount > live {
                actions.push(
                    Action::IncreaseAllowance {
                        asset: Contract {
                            address: t.asset.address.clone(),
                            code_hash: t.asset.code_hash.clone(),
                        },
                        spender: t.spender.clone(),
                        amount: t.amount - live,
                        expiration: None,
                    },
                );
            } else if t.amount < live {
                actions.push(
                    Action::DecreaseAllowance {
                        asset: Contract {
                            address: t.asset.address.clone(),
                            code_hash: t.asset.code_hash.clone(),
                        },
                        spender: t.spender.clone(),
                        amount: live - t.amount,
                    },
                );
            }
            proof {
                assert(pairs.take(i + 1).drop_last() =~= pairs.take(i as int));
                assert(lives@.take(i + 1).drop_last() =~= lives@.take(i as int));
                assert(pairs.take(i + 1).last() == pairs[i as int]);
                assert(lives@.take(i + 1).last() == lives@[i as int]);
                assert(actions.deep_view() =~= acts0 + spec_delta_actions(
                    pairs[i as int],
                    lives@[i as int],
                ));
                assert(actions.deep_view() =~= spec_refresh_actions(
                    pairs.take(i + 1),
                    lives@.take(i + 1),
                ));
            }
            i += 1;
        }
        proof {
            assert(pairs.take(n as int) =~= pairs);
            assert(lives@.take(n as int) =~= lives@);
        }
        Ok(actions)
    }

    /// The monthly reconciliation: allowed at most once per calendar
    /// month — only when the current UTC month is strictly later than the
    /// stored marker's, also across year boundaries.  On success every
    /// credit line is re-targeted against its live allowance and the
    /// marker advances to the current timestamp; on any failure nothing
    /// changes and the refresh must be re-invoked next cycle.  The new
    /// marker is known to parse back to the current month while the UTC
    /// year has four digits (see [`timestamp_to_rfc3339`]).
    pub fn refresh_allowance(&mut self, now_ts: u64, lives: &Vec<u128>) -> (r: Result<
        Vec<Action>,
        Error,
    >)
        ensures
            spec_refresh_gate(old(self)@.last_allowance_refresh, now_ts) matches Err(e) ==> (
            r matches Err(e2) && e2 == e && final(self)@ == old(self)@),
            spec_refresh_gate(old(self)@.last_allowance_refresh, now_ts) is Ok && lives@.len()
                != spec_allowances(old(self)@.assets).len() ==> (r matches Err(e) && e
                == Error::UnexpectedQueryResponse && final(self)@ == old(self)@),
            spec_refresh_gate(old(self)@.last_allowance_refresh, now_ts) is Ok && lives@.len()
                == spec_allowances(old(self)@.assets).len() ==> (r matches Ok(v) && v.deep_view()
                == spec_refresh_actions(spec_allowances(old(self)@.assets), lives@)
                && final(self)@ == (TreasuryV {
                last_allowance_refresh: rfc3339_of_timestamp(now_ts),
                ..old(self)@
            }) && ((timestamp_year_month(now_ts) matches Some(ym) && ym.0 <= 9999)
                ==> rfc3339_year_month(final(self)@.last_allowance_refresh)
                == timestamp_year_month(now_ts))),
            old(self)@.wf() ==> final(self)@.wf(),
    {
        match refresh_gate(self.last_allowance_refresh.as_str(), now_ts) {
            Err(e) => {
                return Err(e);
            },
            Ok(()) => {},
        }
        let actions = match self.do_allowance_refresh(lives) {
            Err(e) => {
                return Err(e);
            },
            Ok(v) => v,
        };
        let marker = timestamp_to_rfc3339(now_ts);
        self.last_allowance_refresh = marker.unwrap();
        Ok(actions)
    }
}

} // verus!
