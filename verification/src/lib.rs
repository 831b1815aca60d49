//! Verified decision logic of the maxBTC protocol contracts on Neutron.
use vstd::prelude::*;

pub mod address;
pub mod allow_list;
pub mod apy_calculator;
pub mod aum_oracle;
pub mod coin;
pub mod coinfactory_wrapper;
pub mod neutron_core;
pub mod decimal;
pub mod denom;
pub mod exchange_rate_provider;
pub mod exchange_rate_provider_mock;
pub mod factory;
pub mod fee_collector;
pub mod kyc_checker;
pub mod laws;
pub mod liquidation_buffer;
pub mod minter;
pub mod minter_laws;
pub mod pump;
pub mod versioning;

verus! {

} // verus!
