use treasury::actions::Action;
use treasury::allocations::Allocation;
use treasury::assets::{Contract, TokenInfo};
use treasury::state::{AllowanceTarget, Config, Treasury};
use treasury::Error;

// Midnight UTC, chosen around the 2020/2021 year boundary.
const DEC_20_2020: u64 = 1_608_422_400;
const DEC_25_2020: u64 = 1_608_854_400;
const JAN_15_2021: u64 = 1_610_668_800;
const FEB_15_2021: u64 = 1_613_347_200;

fn contract(addr: &str) -> Contract {
    Contract { address: addr.to_string(), code_hash: format!("{}-code-hash", addr) }
}

fn token_info(symbol: &str) -> TokenInfo {
    TokenInfo { name: format!("token {}", symbol), symbol: symbol.to_string(), decimals: 6 }
}

fn treasury_with_marker(marker: &str) -> Treasury {
    Treasury::new(
        Config { admin: "admin".to_string() },
        "viewing-key".to_string(),
        "treasury-code-hash".to_string(),
        marker.to_string(),
    )
}

fn register_allowance(t: &mut Treasury, asset: &str, spender: &str, amount: u128) {
    t.try_register_asset(&"admin".to_string(), &contract(asset), token_info(asset), None)
        .unwrap();
    t.register_allocation(
        &"admin".to_string(),
        &asset.to_string(),
        Allocation::Allowance { address: spender.to_string(), amount },
        Some(0),
    )
    .unwrap();
}

#[test]
fn refresh_in_same_month_is_too_recent() {
    let mut t = treasury_with_marker("2020-12-05T08:30:00+00:00");
    let r = t.refresh_allowance(DEC_20_2020, &vec![]);
    assert_eq!(r.unwrap_err(), Error::RefreshTooRecent);
    assert_eq!(t.last_allowance_refresh, "2020-12-05T08:30:00+00:00");
}

#[test]
fn refresh_succeeds_across_year_boundary_then_blocks_within_month() {
    let mut t = treasury_with_marker("2020-12-05T08:30:00+00:00");
    // December 2020 -> January 2021 is a strictly later calendar month even
    // though the month number decreases.
    t.refresh_allowance(JAN_15_2021, &vec![]).unwrap();
    let again = t.refresh_allowance(JAN_15_2021 + 86_400, &vec![]);
    assert_eq!(again.unwrap_err(), Error::RefreshTooRecent);
    // The next calendar month is allowed once more.
    t.refresh_allowance(FEB_15_2021, &vec![]).unwrap();
}

#[test]
fn refresh_twice_within_december_fails_the_second_time() {
    let mut t = treasury_with_marker("2020-11-05T12:00:00+00:00");
    t.refresh_allowance(DEC_20_2020, &vec![]).unwrap();
    let r = t.refresh_allowance(DEC_25_2020, &vec![]);
    assert_eq!(r.unwrap_err(), Error::RefreshTooRecent);
}

#[test]
fn unreadable_marker_is_a_parse_error() {
    let mut t = treasury_with_marker("not-a-timestamp");
    let r = t.refresh_allowance(JAN_15_2021, &vec![]);
    assert_eq!(r.unwrap_err(), Error::TimestampParseError);
    assert_eq!(t.last_allowance_refresh, "not-a-timestamp");
}

#[test]
fn allowance_targets_walks_assets_in_order() {
    let mut t = treasury_with_marker("2020-11-05T12:00:00+00:00");
    register_allowance(&mut t, "sscrt", "alice", 1000);
    register_allowance(&mut t, "shd", "bob", 500);
    assert_eq!(
        t.allowance_targets(),
        vec![
            AllowanceTarget { asset: contract("sscrt"), spender: "alice".to_string(), amount: 1000 },
            AllowanceTarget { asset: contract("shd"), spender: "bob".to_string(), amount: 500 },
        ]
    );
}

#[test]
fn refresh_emits_exact_deltas_per_credit_line() {
    let mut t = treasury_with_marker("2020-11-05T12:00:00+00:00");
    register_allowance(&mut t, "sscrt", "alice", 1000);
    register_allowance(&mut t, "shd", "bob", 500);
    register_allowance(&mut t, "silk", "carol", 250);
    // alice's live allowance is below target, bob's above, carol's exact.
    let acts = t.refresh_allowance(DEC_20_2020, &vec![400, 900, 250]).unwrap();
    assert_eq!(
        acts,
        vec![
            Action::IncreaseAllowance {
                asset: contract("sscrt"),
                spender: "alice".to_string(),
                amount: 600,
                expiration: None,
            },
            Action::DecreaseAllowance {
                asset: contract("shd"),
                spender: "bob".to_string(),
                amount: 400,
            },
        ]
    );
}

#[test]
fn refresh_with_wrong_reply_count_aborts_whole_cycle() {
    let mut t = treasury_with_marker("2020-11-05T12:00:00+00:00");
    register_allowance(&mut t, "sscrt", "alice", 1000);
    let r = t.refresh_allowance(DEC_20_2020, &vec![]);
    assert_eq!(r.unwrap_err(), Error::UnexpectedQueryResponse);
    // No marker update was persisted: the cycle can be re-run at once.
    let acts = t.refresh_allowance(DEC_20_2020, &vec![1000]).unwrap();
    assert_eq!(acts, vec![]);
}

#[test]
fn do_allowance_refresh_reads_state_only() {
    let mut t = treasury_with_marker("2020-11-05T12:00:00+00:00");
    register_allowance(&mut t, "sscrt", "alice", 1000);
    let acts = t.do_allowance_refresh(&vec![100]).unwrap();
    assert_eq!(
        acts,
        vec![Action::IncreaseAllowance {
            asset: contract("sscrt"),
            spender: "alice".to_string(),
            amount: 900,
            expiration: None,
        }]
    );
    // The marker is untouched: only refresh_allowance advances it.
    assert_eq!(t.last_allowance_refresh, "2020-11-05T12:00:00+00:00");
}

#[test]
fn successful_refresh_advances_marker_to_current_month() {
    let mut t = treasury_with_marker("2020-11-05T12:00:00+00:00");
    t.refresh_allowance(DEC_20_2020, &vec![]).unwrap();
    // The stored marker now names December 2020.
    assert!(t.last_allowance_refresh.starts_with("2020-12-20"));
}
