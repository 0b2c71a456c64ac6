//! Asset records: the metadata the treasury keeps for each registered asset.

use vstd::prelude::*;

verus! {

/// A contract reference: an address together with its code hash.
#[derive(Clone, Debug, PartialEq, Eq)]
pub struct Contract {
    pub address: String,
    pub code_hash: String,
}

/// Mathematical model of a [`Contract`].
#[verifier::ext_equal]
pub struct ContractV {
    pub address: Seq<char>,
    pub code_hash: Seq<char>,
}

impl View for Contract {
    type V = ContractV;

    open spec fn view(&self) -> ContractV {
        ContractV { address: self.address@, code_hash: self.code_hash@ }
    }
}

impl DeepView for Contract {
    type V = ContractV;

    open spec fn deep_view(&self) -> ContractV {
        self.view()
    }
}

/// Display metadata of a fungible token.
#[derive(Clone, Debug, PartialEq, Eq)]
pub struct TokenInfo {
    pub name: String,
    pub symbol: String,
    pub decimals: u8,
}

/// Mathematical model of a [`TokenInfo`].
#[verifier::ext_equal]
pub struct TokenInfoV {
    pub name: Seq<char>,
    pub symbol: Seq<char>,
    pub decimals: u8,
}

impl View for TokenInfo {
    type V = TokenInfoV;

    open spec fn view(&self) -> TokenInfoV {
        TokenInfoV { name: self.name@, symbol: self.symbol@, decimals: self.decimals }
    }
}

impl DeepView for TokenInfo {
    type V = TokenInfoV;

    open spec fn deep_view(&self) -> TokenInfoV {
        self.view()
    }
}

/// The record stored for a registered asset: the asset contract itself and
/// its token metadata, as fetched from the asset at registration time.
#[derive(Clone, Debug, PartialEq, Eq)]
pub struct Snip20Asset {
    pub contract: Contract,
    pub token_info: TokenInfo,
}

/// Mathematical model of a [`Snip20Asset`].
#[verifier::ext_equal]
pub struct Snip20AssetV {
    pub contract: ContractV,
    pub token_info: TokenInfoV,
}

impl View for Snip20Asset {
    type V = Snip20AssetV;

    open spec fn view(&self) -> Snip20AssetV {
        Snip20AssetV { contract: self.contract@, token_info: self.token_info@ }
    }
}

impl DeepView for Snip20Asset {
    type V = Snip20AssetV;

    open spec fn deep_view(&self) -> Snip20AssetV {
        self.view()
    }
}

} // verus!
