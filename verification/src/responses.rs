//! The generic outcome tag carried by handle answers.

use vstd::prelude::*;

verus! {

/// Whether a handled message succeeded.
#[derive(Clone, Copy, Debug, PartialEq, Eq, Structural)]
pub enum ResponseStatus {
    Success,
    Failure,
}

} // verus!
