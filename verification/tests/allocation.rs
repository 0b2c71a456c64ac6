use treasury::actions::Action;
use treasury::allocations::Allocation;
use treasury::assets::{Contract, Snip20Asset, TokenInfo};
use treasury::state::{Config, Treasury};
use treasury::Error;
use treasury::ALLOCATION_TOTAL;

const PERCENT_40: u128 = 400_000_000_000_000_000;
const PERCENT_30: u128 = 300_000_000_000_000_000;

fn contract(addr: &str) -> Contract {
    Contract { address: addr.to_string(), code_hash: format!("{}-code-hash", addr) }
}

fn token_info(symbol: &str) -> TokenInfo {
    TokenInfo { name: format!("token {}", symbol), symbol: symbol.to_string(), decimals: 6 }
}

fn fresh_treasury() -> Treasury {
    Treasury::new(
        Config { admin: "admin".to_string() },
        "viewing-key".to_string(),
        "treasury-code-hash".to_string(),
        "2020-11-05T12:00:00+00:00".to_string(),
    )
}

fn treasury_with_asset(addr: &str) -> Treasury {
    let mut t = fresh_treasury();
    t.try_register_asset(&"admin".to_string(), &contract(addr), token_info("SSCRT"), None)
        .unwrap();
    t
}

#[test]
fn register_asset_by_non_admin_is_unauthorized_and_leaves_nothing() {
    let mut t = fresh_treasury();
    let r = t.try_register_asset(&"mallory".to_string(), &contract("sscrt"), token_info("SSCRT"), None);
    assert_eq!(r.unwrap_err(), Error::Unauthorized);
    assert_eq!(t.assets.len(), 0);
    // The asset is still unknown to the router.
    let recv = t.receive(&"sscrt".to_string(), 100, false);
    assert_eq!(recv.unwrap_err(), Error::UnregisteredAsset);
}

#[test]
fn register_asset_emits_subscription_and_credential_actions() {
    let mut t = fresh_treasury();
    let acts = t
        .try_register_asset(&"admin".to_string(), &contract("sscrt"), token_info("SSCRT"), None)
        .unwrap();
    assert_eq!(
        acts,
        vec![
            Action::RegisterReceive {
                asset: contract("sscrt"),
                receiver_code_hash: "treasury-code-hash".to_string(),
            },
            Action::SetViewingKey { asset: contract("sscrt"), key: "viewing-key".to_string() },
        ]
    );
    assert_eq!(t.assets.len(), 1);
    assert_eq!(t.assets[0].asset.token_info.symbol, "SSCRT");
    assert_eq!(t.assets[0].allocations.len(), 0);
}

#[test]
fn register_asset_with_reserves_starts_with_one_reserve_entry() {
    let mut t = fresh_treasury();
    t.try_register_asset(
        &"admin".to_string(),
        &contract("sscrt"),
        token_info("SSCRT"),
        Some(PERCENT_30),
    )
    .unwrap();
    assert_eq!(t.assets[0].allocations, vec![Allocation::Reserves { allocation: PERCENT_30 }]);
}

#[test]
fn register_asset_rejects_full_reserve() {
    let mut t = fresh_treasury();
    let r = t.try_register_asset(
        &"admin".to_string(),
        &contract("sscrt"),
        token_info("SSCRT"),
        Some(ALLOCATION_TOTAL),
    );
    assert_eq!(r.unwrap_err(), Error::AllocationExceedsTotal);
    assert_eq!(t.assets.len(), 0);
}

#[test]
fn reregistration_overwrites_record_and_resets_allocations() {
    let mut t = treasury_with_asset("sscrt");
    t.register_allocation(
        &"admin".to_string(),
        &"sscrt".to_string(),
        Allocation::Rewards { allocation: PERCENT_40, contract: contract("rewards") },
        Some(0),
    )
    .unwrap();
    assert_eq!(t.assets[0].allocations.len(), 1);
    t.try_register_asset(&"admin".to_string(), &contract("sscrt"), token_info("SSCRT2"), None)
        .unwrap();
    assert_eq!(t.assets.len(), 1);
    assert_eq!(t.assets[0].asset.token_info.symbol, "SSCRT2");
    assert_eq!(t.assets[0].allocations.len(), 0);
}

#[test]
fn register_allocation_requires_admin() {
    let mut t = treasury_with_asset("sscrt");
    let r = t.register_allocation(
        &"mallory".to_string(),
        &"sscrt".to_string(),
        Allocation::Reserves { allocation: 1 },
        Some(0),
    );
    assert_eq!(r.unwrap_err(), Error::Unauthorized);
    assert_eq!(t.assets[0].allocations.len(), 0);
}

#[test]
fn register_allocation_unknown_asset_fails() {
    let mut t = treasury_with_asset("sscrt");
    let r = t.register_allocation(
        &"admin".to_string(),
        &"other".to_string(),
        Allocation::Reserves { allocation: 1 },
        Some(0),
    );
    assert_eq!(r.unwrap_err(), Error::UnregisteredAsset);
}

#[test]
fn register_allocation_rejects_malformed_balance_reply() {
    let mut t = treasury_with_asset("sscrt");
    let r = t.register_allocation(
        &"admin".to_string(),
        &"sscrt".to_string(),
        Allocation::Reserves { allocation: 1 },
        None,
    );
    assert_eq!(r.unwrap_err(), Error::UnexpectedQueryResponse);
    assert_eq!(t.assets[0].allocations.len(), 0);
}

#[test]
fn upsert_replaces_entry_with_same_target_in_place() {
    let mut t = treasury_with_asset("sscrt");
    let admin = "admin".to_string();
    let asset = "sscrt".to_string();
    t.register_allocation(
        &admin,
        &asset,
        Allocation::Rewards { allocation: PERCENT_40, contract: contract("pool") },
        Some(0),
    )
    .unwrap();
    t.register_allocation(
        &admin,
        &asset,
        Allocation::Staking { allocation: PERCENT_30, contract: contract("stake") },
        Some(0),
    )
    .unwrap();
    // Re-assign the percentage of the entry keyed by "pool": not blocked by
    // its own prior 40%, and the list length is unchanged.
    t.register_allocation(
        &admin,
        &asset,
        Allocation::Rewards { allocation: PERCENT_30, contract: contract("pool") },
        Some(0),
    )
    .unwrap();
    assert_eq!(t.assets[0].allocations.len(), 2);
    assert_eq!(
        t.assets[0].allocations[1],
        Allocation::Rewards { allocation: PERCENT_30, contract: contract("pool") }
    );
}

#[test]
fn upsert_twice_with_same_entry_is_idempotent() {
    let mut t = treasury_with_asset("sscrt");
    let admin = "admin".to_string();
    let asset = "sscrt".to_string();
    let entry = Allocation::Staking { allocation: PERCENT_40, contract: contract("stake") };
    t.register_allocation(&admin, &asset, entry.clone(), Some(0)).unwrap();
    let once = t.assets[0].allocations.clone();
    t.register_allocation(&admin, &asset, entry, Some(0)).unwrap();
    assert_eq!(t.assets[0].allocations, once);
}

#[test]
fn upsert_reaching_exactly_the_total_fails() {
    let mut t = treasury_with_asset("sscrt");
    let admin = "admin".to_string();
    let asset = "sscrt".to_string();
    t.register_allocation(
        &admin,
        &asset,
        Allocation::Rewards { allocation: PERCENT_40, contract: contract("pool") },
        Some(0),
    )
    .unwrap();
    let r = t.register_allocation(
        &admin,
        &asset,
        Allocation::Reserves { allocation: ALLOCATION_TOTAL - PERCENT_40 },
        Some(0),
    );
    assert_eq!(r.unwrap_err(), Error::AllocationExceedsTotal);
    // The failed upsert left the list untouched.
    assert_eq!(t.assets[0].allocations.len(), 1);
}

#[test]
fn upsert_one_below_the_total_succeeds() {
    let mut t = treasury_with_asset("sscrt");
    let admin = "admin".to_string();
    let asset = "sscrt".to_string();
    t.register_allocation(
        &admin,
        &asset,
        Allocation::Rewards { allocation: PERCENT_40, contract: contract("pool") },
        Some(0),
    )
    .unwrap();
    t.register_allocation(
        &admin,
        &asset,
        Allocation::Reserves { allocation: ALLOCATION_TOTAL - PERCENT_40 - 1 },
        Some(0),
    )
    .unwrap();
    assert_eq!(t.assets[0].allocations.len(), 2);
}

#[test]
fn allowance_entries_do_not_consume_percentage_budget() {
    let mut t = treasury_with_asset("sscrt");
    let admin = "admin".to_string();
    let asset = "sscrt".to_string();
    t.register_allocation(
        &admin,
        &asset,
        Allocation::Allowance { address: "spender".to_string(), amount: u128::MAX },
        Some(0),
    )
    .unwrap();
    // The absolute allowance target does not count toward the 100% bound.
    t.register_allocation(
        &admin,
        &asset,
        Allocation::Reserves { allocation: ALLOCATION_TOTAL - 1 },
        Some(0),
    )
    .unwrap();
    assert_eq!(t.assets[0].allocations.len(), 2);
}

#[test]
fn one_time_allowance_emits_single_increase() {
    let t = treasury_with_asset("sscrt");
    let acts = t
        .one_time_allowance(
            &"admin".to_string(),
            &"sscrt".to_string(),
            &"spender".to_string(),
            777,
            Some(123_456),
        )
        .unwrap();
    assert_eq!(
        acts,
        vec![Action::IncreaseAllowance {
            asset: contract("sscrt"),
            spender: "spender".to_string(),
            amount: 777,
            expiration: Some(123_456),
        }]
    );
    let denied = t.one_time_allowance(
        &"mallory".to_string(),
        &"sscrt".to_string(),
        &"spender".to_string(),
        777,
        None,
    );
    assert_eq!(denied.unwrap_err(), Error::Unauthorized);
    let unknown = t.one_time_allowance(
        &"admin".to_string(),
        &"other".to_string(),
        &"spender".to_string(),
        777,
        None,
    );
    assert_eq!(unknown.unwrap_err(), Error::UnregisteredAsset);
}

#[test]
fn update_config_swaps_admin() {
    let mut t = fresh_treasury();
    let denied = t.try_update_config(&"mallory".to_string(), Config { admin: "mallory".to_string() });
    assert_eq!(denied.unwrap_err(), Error::Unauthorized);
    assert_eq!(t.config.admin, "admin");
    t.try_update_config(&"admin".to_string(), Config { admin: "new-admin".to_string() })
        .unwrap();
    assert_eq!(t.config.admin, "new-admin");
    let r = t.try_register_asset(&"admin".to_string(), &contract("sscrt"), token_info("SSCRT"), None);
    assert_eq!(r.unwrap_err(), Error::Unauthorized);
}

#[test]
fn snip20_asset_holds_contract_and_metadata() {
    let asset = Snip20Asset { contract: contract("sscrt"), token_info: token_info("SSCRT") };
    assert_eq!(asset.contract.code_hash, "sscrt-code-hash");
    assert_eq!(asset.token_info.decimals, 6);
}
