//! The treasury state: configuration, registered assets and their
//! allocation lists, and the marker of the last allowance refresh.

use vstd::prelude::*;

use crate::actions::ActionV;
use crate::allocations::{spec_upsert, spec_valid_list, Allocation, AllocationV};
use crate::assets::{Contract, ContractV, Snip20Asset, Snip20AssetV};
use crate::Error;

verus! {

/// Treasury configuration: the single principal allowed to mutate state.
#[derive(Clone, Debug, PartialEq, Eq)]
pub struct Config {
    pub admin: String,
}

/// Mathematical model of a [`Config`].
#[verifier::ext_equal]
pub struct ConfigV {
    pub admin: Seq<char>,
}

impl View for Config {
    type V = ConfigV;

    open spec fn view(&self) -> ConfigV {
        ConfigV { admin: self.admin@ }
    }
}

impl DeepView for Config {
    type V = ConfigV;

    open spec fn deep_view(&self) -> ConfigV {
        self.view()
    }
}

/// One registered asset: its record and its allocation list.
#[derive(Debug, PartialEq, Eq)]
pub struct AssetEntry {
    pub asset: Snip20Asset,
    pub allocations: Vec<Allocation>,
}

/// Mathematical model of an [`AssetEntry`].
#[verifier::ext_equal]
pub struct AssetEntryV {
    pub asset: Snip20AssetV,
    pub allocations: Seq<AllocationV>,
}

impl View for AssetEntry {
    type V = AssetEntryV;

    open spec fn view(&self) -> AssetEntryV {
        AssetEntryV { asset: self.asset@, allocations: self.allocations.deep_view() }
    }
}

impl DeepView for AssetEntry {
    type V = AssetEntryV;

    open spec fn deep_view(&self) -> AssetEntryV {
        self.view()
    }
}

/// One standing credit line to reconcile: the asset it lives on, the
/// spender, and the target amount.
#[derive(Clone, Debug, PartialEq, Eq)]
pub struct AllowanceTarget {
    pub asset: Contract,
    pub spender: String,
    pub amount: u128,
}

/// Mathematical model of an [`AllowanceTarget`].
#[verifier::ext_equal]
pub struct AllowanceTargetV {
    pub asset: ContractV,
    pub spender: Seq<char>,
    pub amount: u128,
}

impl View for AllowanceTarget {
    type V = AllowanceTargetV;

    open spec fn view(&self) -> AllowanceTargetV {
        AllowanceTargetV { asset: self.asset@, spender: self.spender@, amount: self.amount }
    }
}

impl DeepView for AllowanceTarget {
    type V = AllowanceTargetV;

    open spec fn deep_view(&self) -> AllowanceTargetV {
        self.view()
    }
}

/// The whole engine state.
#[derive(Debug, PartialEq, Eq)]
pub struct Treasury {
    pub config: Config,
    /// The view credential registered with every asset.
    pub viewing_key: String,
    /// The treasury's own code hash, handed to assets when subscribing to
    /// transfer notifications.
    pub contract_code_hash: String,
    /// RFC 3339 marker of the last successful allowance refresh.
    pub last_allowance_refresh: String,
    pub assets: Vec<AssetEntry>,
}

/// Mathematical model of the [`Treasury`].
#[verifier::ext_equal]
pub struct TreasuryV {
    pub config: ConfigV,
    pub viewing_key: Seq<char>,
    pub contract_code_hash: Seq<char>,
    pub last_allowance_refresh: Seq<char>,
    pub assets: Seq<AssetEntryV>,
}

impl View for Treasury {
    type V = TreasuryV;

    open spec fn view(&self) -> TreasuryV {
        TreasuryV {
            config: self.config@,
            viewing_key: self.viewing_key@,
            contract_code_hash: self.contract_code_hash@,
            last_allowance_refresh: self.last_allowance_refresh@,
            assets: self.assets.deep_view(),
        }
    }
}

impl TreasuryV {
    /// Well-formedness: asset addresses are pairwise distinct and every
    /// allocation list satisfies its invariant — percentages sum to
    /// strictly less than 100%, targets pairwise distinct.
    pub open spec fn wf(self) -> bool {
        &&& forall|i: int, j: int|
            #![trigger self.assets[i], self.assets[j]]
            0 <= i < j < self.assets.len() ==> self.assets[i].asset.contract.address
                != self.assets[j].asset.contract.address
        &&& forall|i: int|
            0 <= i < self.assets.len() ==> spec_valid_list(
                (#[trigger] self.assets[i]).allocations,
            )
    }
}

/// Index of the registered asset whose address is `addr`, if any.
pub open spec fn spec_find_asset(assets: Seq<AssetEntryV>, addr: Seq<char>) -> Option<int>
    decreases assets.len(),
{
    if assets.len() == 0 {
        None
    } else if assets[0].asset.contract.address == addr {
        Some(0int)
    } else {
        match spec_find_asset(assets.drop_first(), addr) {
            Some(i) => Some(i + 1),
            None => None,
        }
    }
}

/// What `spec_find_asset` finds is the first entry with the address.
pub proof fn lemma_find_asset(assets: Seq<AssetEntryV>, addr: Seq<char>)
    ensures
        match spec_find_asset(assets, addr) {
            Some(i) => 0 <= i < assets.len() && assets[i].asset.contract.address == addr
                && (forall|j: int|
                0 <= j < i ==> (#[trigger] assets[j]).asset.contract.address != addr),
            None => forall|j: int|
                0 <= j < assets.len() ==> (#[trigger] assets[j]).asset.contract.address != addr,
        },
    decreases assets.len(),
{
    if assets.len() > 0 && assets[0].asset.contract.address != addr {
        lemma_find_asset(assets.drop_first(), addr);
        assert(forall|j: int|
            1 <= j < assets.len() ==> #[trigger] assets[j] == assets.drop_first()[j - 1]);
    }
}

/// Conversely, the first entry with the address is what `spec_find_asset`
/// finds.
pub proof fn lemma_find_asset_at(assets: Seq<AssetEntryV>, addr: Seq<char>, i: int)
    requires
        0 <= i < assets.len(),
        assets[i].asset.contract.address == addr,
        forall|j: int| 0 <= j < i ==> (#[trigger] assets[j]).asset.contract.address != addr,
    ensures
        spec_find_asset(assets, addr) == Some(i),
    decreases assets.len(),
{
    if i > 0 {
        assert(forall|j: int|
            0 <= j < assets.len() - 1 ==> #[trigger] assets.drop_first()[j] == assets[j + 1]);
        lemma_find_asset_at(assets.drop_first(), addr, i - 1);
    }
}

pub proof fn lemma_find_asset_none(assets: Seq<AssetEntryV>, addr: Seq<char>)
    requires
        forall|j: int|
            0 <= j < assets.len() ==> (#[trigger] assets[j]).asset.contract.address != addr,
    ensures
        spec_find_asset(assets, addr) is None,
    decreases assets.len(),
{
    if assets.len() > 0 {
        assert(forall|j: int|
            0 <= j < assets.len() - 1 ==> #[trigger] assets.drop_first()[j] == assets[j + 1]);
        lemma_find_asset_none(assets.drop_first(), addr);
    }
}

/// The credit lines one allocation list holds, in list order.
pub open spec fn spec_allowances_of(asset: ContractV, l: Seq<AllocationV>) -> Seq<AllowanceTargetV>
    decreases l.len(),
{
    if l.len() == 0 {
        Seq::empty()
    } else {
        spec_allowances_of(asset, l.drop_last()) + (match l.last() {
            AllocationV::Allowance { address, amount } => seq![
                AllowanceTargetV { asset, spender: address, amount },
            ],
            _ => Seq::empty(),
        })
    }
}

/// Every credit line across every registered asset, assets in registration
/// order, entries in list order.
pub open spec fn spec_allowances(assets: Seq<AssetEntryV>) -> Seq<AllowanceTargetV>
    decreases assets.len(),
{
    if assets.len() == 0 {
        Seq::empty()
    } else {
        spec_allowances(assets.drop_last()) + spec_allowances_of(
            assets.last().asset.contract,
            assets.last().allocations,
        )
    }
}

/// The corrective actions for one credit line, given the live allowance:
/// raise it to the target, lower it to the target, or nothing when they
/// already agree.
pub open spec fn spec_delta_actions(p: AllowanceTargetV, live: u128) -> Seq<ActionV> {
    if p.amount > live {
        seq![
            ActionV::IncreaseAllowance {
                asset: p.asset,
                spender: p.spender,
                amount: (p.amount - live) as u128,
                expiration: None,
            },
        ]
    } else if p.amount < live {
        seq![
            ActionV::DecreaseAllowance {
                asset: p.asset,
                spender: p.spender,
                amount: (live - p.amount) as u128,
            },
        ]
    } else {
        Seq::empty()
    }
}

/// The corrective actions for all credit lines, each paired with its live
/// allowance.
pub open spec fn spec_refresh_actions(pairs: Seq<AllowanceTargetV>, lives: Seq<u128>) -> Seq<
    ActionV,
>
    decreases pairs.len(),
{
    if pairs.len() == 0 || lives.len() == 0 {
        Seq::empty()
    } else {
        spec_refresh_actions(pairs.drop_last(), lives.drop_last()) + spec_delta_actions(
            pairs.last(),
            lives.last(),
        )
    }
}

/// The allocation list a fresh registration starts from: the reserve entry,
/// or nothing.
pub open spec fn spec_init_allocations(reserves: Option<u128>) -> Seq<AllocationV> {
    match reserves {
        Some(r) => seq![AllocationV::Reserves { allocation: r }],
        None => Seq::empty(),
    }
}

/// The model outcome of registering an asset: admin gate, validation of the
/// optional initial reserve percentage, then the stored record and the two
/// subscription actions.  Re-registration overwrites the record and resets
/// the allocation list.
pub open spec fn spec_register_asset(
    t: TreasuryV,
    sender: Seq<char>,
    contract: ContractV,
    token_info: crate::assets::TokenInfoV,
    reserves: Option<u128>,
) -> Result<(TreasuryV, Seq<ActionV>), Error> {
    if sender != t.config.admin {
        Err(Error::Unauthorized)
    } else if reserves matches Some(r0) && r0 >= crate::ALLOCATION_TOTAL {
        Err(Error::AllocationExceedsTotal)
    } else {
        let entry = AssetEntryV {
            asset: Snip20AssetV { contract, token_info },
            allocations: spec_init_allocations(reserves),
        };
        let assets1 = match spec_find_asset(t.assets, contract.address) {
            Some(k) => t.assets.update(k, entry),
            None => t.assets.push(entry),
        };
        let acts = seq![
            ActionV::RegisterReceive {
                asset: contract,
                receiver_code_hash: t.contract_code_hash,
            },
            ActionV::SetViewingKey { asset: contract, key: t.viewing_key },
        ];
        Ok((TreasuryV { assets: assets1, ..t }, acts))
    }
}

/// The model outcome of an allocation upsert on the whole state: admin
/// gate, asset lookup, balance-reply check, then the list-level
/// insert-or-replace.
pub open spec fn spec_register_allocation(
    t: TreasuryV,
    sender: Seq<char>,
    asset: Seq<char>,
    a: AllocationV,
    balance: Option<u128>,
) -> Result<TreasuryV, Error> {
    if sender != t.config.admin {
        Err(Error::Unauthorized)
    } else {
        match spec_find_asset(t.assets, asset) {
            None => Err(Error::UnregisteredAsset),
            Some(k) => match balance {
                None => Err(Error::UnexpectedQueryResponse),
                Some(_) => match spec_upsert(t.assets[k].allocations, a) {
                    Err(e) => Err(e),
                    Ok(l1) => Ok(
                        TreasuryV {
                            assets: t.assets.update(
                                k,
                                AssetEntryV { asset: t.assets[k].asset, allocations: l1 },
                            ),
                            ..t
                        },
                    ),
                },
            },
        }
    }
}

} // verus!
