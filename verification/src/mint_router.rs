//! Message surface of the mint router, which forwards a mint through a
//! configured path of contracts.
//!
//! Addresses are held as plain strings, token amounts as `u128`, and binary
//! payloads as byte vectors; the serialization wrappers around these types
//! live outside the verified library.

use vstd::prelude::*;

use crate::assets::Contract;
use crate::responses::ResponseStatus;

verus! {

/// Router configuration: the admin and the mint path.
#[derive(Clone, Debug, PartialEq, Eq)]
pub struct Config {
    pub admin: String,
    pub path: Vec<Contract>,
}

/// Callback payload a sender may attach to guard against slippage.
#[derive(Clone, Copy, Debug, PartialEq, Eq, Structural)]
pub struct MintMsgHook {
    pub minimum_expected_amount: u128,
}

/// Instantiation message.
#[derive(Clone, Debug, PartialEq, Eq)]
pub struct InitMsg {
    pub admin: Option<String>,
    pub path: Vec<Contract>,
}

/// Executable messages.
#[derive(Clone, Debug, PartialEq, Eq)]
pub enum HandleMsg {
    UpdateConfig { config: Config },
    Receive {
        sender: String,
        from: String,
        amount: u128,
        memo: Option<Vec<u8>>,
        msg: Option<Vec<u8>>,
    },
}

/// Replies to executable messages.
#[derive(Clone, Debug, PartialEq, Eq)]
pub enum HandleAnswer {
    Init { status: ResponseStatus, address: String },
    UpdateConfig { status: ResponseStatus },
    Mint { status: ResponseStatus, amount: u128 },
}

/// Queries.
#[derive(Clone, Copy, Debug, PartialEq, Eq, Structural)]
pub enum QueryMsg {
    Config {},
}

/// Query replies.
#[derive(Clone, Debug, PartialEq, Eq)]
pub enum QueryAnswer {
    Config { config: Config },
}

} // verus!
