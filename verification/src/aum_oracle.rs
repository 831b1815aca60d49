//! The AUM oracle's interface: the assets under management it reports.
use vstd::prelude::*;

verus! {

/// Queries the AUM oracle answers.
#[derive(Clone, Copy, Debug, PartialEq, Eq, Structural)]
pub enum QueryMsg {
    /// The assets under management, in the deposit coin's smallest unit.
    GetAUM,
}

} // verus!
