//! Treasury allocation engine.
//!
//! The treasury holds custody of fungible assets and routes incoming funds to
//! a configurable set of strategies according to per-asset, per-strategy
//! fixed-point percentage splits.  The crate keeps, per asset, an ordered list
//! of allocation entries whose percentages must always sum to strictly less
//! than 100%, splits every inbound transfer across that list, and reconciles
//! standing credit-line allowances against their targets at most once per
//! calendar month.
//!
//! All effects on the outside world are returned as plain [`actions::Action`]
//! values for the surrounding execution environment to carry out; the engine
//! itself only decides.

use vstd::prelude::*;

pub mod actions;
pub mod allocations;
pub mod assets;
pub mod calendar;
pub mod handle;
pub mod math;
pub mod mint_router;
pub mod responses;
pub mod scrt_staking;
pub mod state;

verus! {

/// Everything that can go wrong in a treasury operation.  Every failure is
/// terminal for the operation at hand: no partial state is ever committed.
#[derive(Clone, Copy, Debug, PartialEq, Eq, Structural)]
pub enum Error {
    /// The caller is not the configured admin.
    Unauthorized,
    /// The operation references an asset with no stored record.
    UnregisteredAsset,
    /// The mutation would bring an asset's percentage total to 100% or more.
    AllocationExceedsTotal,
    /// A stored or supplied timestamp could not be read as a calendar date.
    TimestampParseError,
    /// An allowance refresh was already performed this calendar month.
    RefreshTooRecent,
    /// A collaborator's reply did not have the expected shape.
    UnexpectedQueryResponse,
}

/// The fixed-point denominator: `10^18` stands for 100%.
pub const ALLOCATION_TOTAL: u128 = 1_000_000_000_000_000_000;

} // verus!
