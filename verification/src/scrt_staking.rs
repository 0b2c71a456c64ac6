//! Message surface of the staking adapter, which bonds treasury funds to
//! validators and forwards rewards.
//!
//! Addresses are held as plain strings, token amounts as `u128`, binary
//! payloads as byte vectors, and the chain's decimal rates as fixed-point
//! `u128` fractions with denominator `10^18`; the serialization wrappers
//! around these types live outside the verified library.

use vstd::prelude::*;

use crate::assets::Contract;
use crate::responses::ResponseStatus;

verus! {

/// Bounds a validator must satisfy to be delegated to: commission rates as
/// fixed-point fractions, and the acceptable range of ranking positions.
#[derive(Clone, Copy, Debug, PartialEq, Eq, Structural)]
pub struct ValidatorBounds {
    pub min_commission: u128,
    pub max_commission: u128,
    pub top_position: u128,
    pub bottom_position: u128,
}

/// Adapter configuration.
#[derive(Clone, Debug, PartialEq, Eq)]
pub struct Config {
    pub admin: String,
    pub treasury: String,
    pub sscrt: Contract,
    pub validator_bounds: Option<ValidatorBounds>,
}

/// Instantiation message.
#[derive(Clone, Debug, PartialEq, Eq)]
pub struct InitMsg {
    pub admin: Option<String>,
    pub treasury: String,
    pub sscrt: Contract,
    pub validator_bounds: Option<ValidatorBounds>,
    pub viewing_key: String,
}

/// Executable messages.
#[derive(Clone, Debug, PartialEq, Eq)]
pub enum HandleMsg {
    UpdateConfig { admin: Option<String> },
    Receive {
        sender: String,
        from: String,
        amount: u128,
        memo: Option<Vec<u8>>,
        msg: Option<Vec<u8>>,
    },
    Unbond { validator: String },
    Claim { validator: String },
}

/// A validator as the chain reports it: its commission rates are
/// fixed-point fractions.
#[derive(Clone, Debug, PartialEq, Eq)]
pub struct Validator {
    pub address: String,
    pub commission: u128,
    pub max_commission: u128,
    pub max_change_rate: u128,
}

/// A denominated amount.
#[derive(Clone, Debug, PartialEq, Eq)]
pub struct Coin {
    pub denom: String,
    pub amount: u128,
}

/// A standing delegation as the chain reports it.
#[derive(Clone, Debug, PartialEq, Eq)]
pub struct Delegation {
    pub delegator: String,
    pub validator: String,
    pub amount: Coin,
}

/// Replies to executable messages.
#[derive(Clone, Debug, PartialEq, Eq)]
pub enum HandleAnswer {
    Init { status: ResponseStatus, address: String },
    UpdateConfig { status: ResponseStatus },
    Receive { status: ResponseStatus, validator: Validator },
    Claim { status: ResponseStatus },
    Unbond { status: ResponseStatus, delegation: Delegation },
}

/// Queries.
#[derive(Clone, Copy, Debug, PartialEq, Eq, Structural)]
pub enum QueryMsg {
    GetConfig {},
    Delegations {},
    Rewards {},
}

/// Query replies.
#[derive(Clone, Debug, PartialEq, Eq)]
pub enum QueryAnswer {
    Config { config: Config },
    Balance { amount: u128 },
}

} // verus!
