use treasury::assets::Contract;
use treasury::mint_router;
use treasury::responses::ResponseStatus;
use treasury::scrt_staking;

fn contract(addr: &str) -> Contract {
    Contract { address: addr.to_string(), code_hash: format!("{}-code-hash", addr) }
}

#[test]
fn mint_router_messages_round_trip_their_fields() {
    let config = mint_router::Config {
        admin: "admin".to_string(),
        path: vec![contract("mint-a"), contract("mint-b")],
    };
    let msg = mint_router::HandleMsg::UpdateConfig { config: config.clone() };
    match msg {
        mint_router::HandleMsg::UpdateConfig { config: c } => {
            assert_eq!(c.path.len(), 2);
            assert_eq!(c.admin, "admin");
        },
        _ => panic!("wrong variant"),
    }
    assert_eq!(mint_router::QueryMsg::Config {}, mint_router::QueryMsg::Config {});
    let answer = mint_router::HandleAnswer::Mint { status: ResponseStatus::Success, amount: 10 };
    match answer {
        mint_router::HandleAnswer::Mint { status, amount } => {
            assert_eq!(status, ResponseStatus::Success);
            assert_eq!(amount, 10);
        },
        _ => panic!("wrong variant"),
    }
    let hook = mint_router::MintMsgHook { minimum_expected_amount: 42 };
    assert_eq!(hook.minimum_expected_amount, 42);
}

#[test]
fn scrt_staking_messages_round_trip_their_fields() {
    let bounds = scrt_staking::ValidatorBounds {
        min_commission: 0,
        max_commission: 100_000_000_000_000_000,
        top_position: 1,
        bottom_position: 50,
    };
    let config = scrt_staking::Config {
        admin: "admin".to_string(),
        treasury: "treasury".to_string(),
        sscrt: contract("sscrt"),
        validator_bounds: Some(bounds),
    };
    let answer = scrt_staking::QueryAnswer::Config { config: config.clone() };
    match answer {
        scrt_staking::QueryAnswer::Config { config: c } => {
            assert_eq!(c.validator_bounds.unwrap().bottom_position, 50);
        },
        _ => panic!("wrong variant"),
    }
    assert_ne!(scrt_staking::QueryMsg::GetConfig {}, scrt_staking::QueryMsg::Rewards {});
    let unbond = scrt_staking::HandleAnswer::Unbond {
        status: ResponseStatus::Success,
        delegation: scrt_staking::Delegation {
            delegator: "treasury".to_string(),
            validator: "validator-1".to_string(),
            amount: scrt_staking::Coin { denom: "uscrt".to_string(), amount: 1_000_000 },
        },
    };
    match unbond {
        scrt_staking::HandleAnswer::Unbond { delegation, .. } => {
            assert_eq!(delegation.amount.amount, 1_000_000);
        },
        _ => panic!("wrong variant"),
    }
}
