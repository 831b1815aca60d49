//! The exchange-rate provider: its owner publishes the exchange rate of
//! maxBTC, which it reports as published at the time of the query.
use vstd::prelude::*;
use crate::address::{OwnershipError, assert_owner};
use crate::decimal::Decimal;

verus! {

/// Nanoseconds in a second.
pub const NANOS_PER_SECOND: u64 = 1_000_000_000u64;

/// Queries the provider answers.
#[derive(Clone, Copy, Debug, PartialEq, Eq, Structural)]
pub enum QueryMsg {
    GetTwaer,
    Ownership,
}

/// The exchange rate and when it is reported as published (in seconds).
#[derive(Clone, Copy, Debug, PartialEq, Eq, Structural)]
pub struct GetTwaerResponse {
    pub twaer: Decimal,
    pub published_at: u64,
}

/// The errors of the provider.
#[derive(Clone, Copy, Debug, PartialEq, Eq, Structural)]
pub enum ContractError {
    Ownership(OwnershipError),
    /// An address that the chain does not accept.
    InvalidAddress,
}

/// Instantiates the provider with the rate one; refused for an invalid owner.
pub fn instantiate(owner_valid: bool) -> (r: Result<Decimal, ContractError>)
    ensures
        owner_valid ==> r == Ok::<Decimal, ContractError>(Decimal { atomics: crate::decimal::DECIMAL_FRACTIONAL }),
        !owner_valid ==> r == Err::<Decimal, ContractError>(ContractError::InvalidAddress),
{
    if !owner_valid {
        return Err(ContractError::InvalidAddress);
    }
    Ok(Decimal::one())
}

/// The owner publishes `rate`; refused to anyone else.
pub fn execute_update_exchange_rate(owner: &Option<String>, sender: &String, rate: Decimal) -> (r: Result<Decimal, ContractError>)
    ensures
        owner is None ==> r == Err::<Decimal, ContractError>(ContractError::Ownership(OwnershipError::NoOwner)),
        owner is Some && owner.unwrap()@ != sender@ ==> r == Err::<Decimal, ContractError>(
            ContractError::Ownership(OwnershipError::NotOwner),
        ),
        owner is Some && owner.unwrap()@ == sender@ ==> r == Ok::<Decimal, ContractError>(rate),
{
    match assert_owner(owner, sender) {
        Ok(()) => Ok(rate),
        Err(e) => Err(ContractError::Ownership(e)),
    }
}

/// The published rate, reported as published at block time `now`
/// (nanoseconds), in whole seconds.
pub fn get_twaer(rate: Decimal, now: u64) -> (r: GetTwaerResponse)
    ensures
        r.twaer == rate,
        r.published_at == now / NANOS_PER_SECOND,
{
    GetTwaerResponse { twaer: rate, published_at: now / NANOS_PER_SECOND }
}

} // verus!
