//! The interface of the exchange-rate provider's test double, which also
//! reports an AUM.
use vstd::prelude::*;

verus! {

/// Queries the test double answers.
#[derive(Clone, Copy, Debug, PartialEq, Eq, Structural)]
pub enum QueryMsg {
    GetTwaer,
    /// The latest AUM reported by the oracles.
    GetAum,
    Ownership,
}

} // verus!
