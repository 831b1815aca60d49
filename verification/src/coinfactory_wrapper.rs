//! The coin-factory wrapper: it mints its own token one-for-one for the
//! coin it wraps, and burns it to give the coin back.
use vstd::prelude::*;
use crate::address::{AddressInput, OwnershipError};
use crate::coin::{Coin, PaymentError, must_pay, must_pay_spec, same_payment};
use crate::denom::{full_denom, full_denom_spec};

verus! {

/// The wrapper's configuration.
#[derive(Clone, Debug, PartialEq, Eq)]
pub struct Config {
    /// The coin it wraps.
    pub in_denom: String,
    /// Its own token.
    pub out_denom: String,
}

/// The errors of the wrapper.
#[derive(Clone, Debug, PartialEq, Eq)]
pub enum ContractError {
    Ownership(OwnershipError),
    /// An address that the chain does not accept.
    InvalidAddress,
    Payment(PaymentError),
}

/// Queries the wrapper answers.
#[derive(Clone, Copy, Debug, PartialEq, Eq, Structural)]
pub enum QueryMsg {
    Config,
    Denom,
    Ownership,
}

/// A message the wrapper sends.
#[derive(Clone, Debug, PartialEq, Eq)]
pub enum WrapperMsg {
    /// Create the token-factory denom `subdenom`.
    CreateDenom { subdenom: String },
    /// Mint `amount` to `to`.
    Mint { amount: Coin, to: String },
    /// Burn `amount` held by this contract.
    Burn { amount: Coin },
    /// Send `amount` from this contract to `to`.
    Send { amount: Coin, to: String },
}

/// Instantiates the wrapper at `contract_addr`: refused for an invalid
/// owner; its token is `factory/{contract_addr}/{subdenom}`, whose creation
/// is the message sent.
pub fn instantiate(owner: &AddressInput, contract_addr: &String, in_denom: &String, subdenom: &String) -> (r: Result<(Config, WrapperMsg), ContractError>)
    ensures
        r is Ok <==> owner.valid,
        r is Err ==> r == Err::<(Config, WrapperMsg), ContractError>(ContractError::InvalidAddress),
        r is Ok ==> {
            let (c, m) = r->Ok_0;
            &&& c.in_denom@ == in_denom@
            &&& c.out_denom@ == full_denom_spec(contract_addr@, subdenom@)
            &&& m matches WrapperMsg::CreateDenom { subdenom: s } && s@ == subdenom@
        },
{
    if !owner.valid {
        return Err(ContractError::InvalidAddress);
    }
    let out = full_denom(contract_addr.as_str(), subdenom.as_str());
    Ok((Config { in_denom: in_denom.clone(), out_denom: out }, WrapperMsg::CreateDenom { subdenom: subdenom.clone() }))
}

/// Wraps the coin attached by `sender`: exactly one non-zero coin of the
/// wrapped denom, minted one-for-one to the sender in the wrapper's token.
pub fn execute_wrap(cfg: &Config, sender: &String, funds: &Vec<Coin>) -> (r: Result<WrapperMsg, ContractError>)
    requires
        cfg.in_denom@.len() > 0,
    ensures
        match must_pay_spec(funds@, cfg.in_denom@) {
            Ok(a) => r is Ok && (r->Ok_0 matches WrapperMsg::Mint { amount, to } && amount.amount == a
                && amount.denom@ == cfg.out_denom@ && to@ == sender@),
            Err(_) => r is Err && (r->Err_0 matches ContractError::Payment(e) && same_payment(
                Err(e),
                must_pay_spec(funds@, cfg.in_denom@),
                cfg.in_denom@,
            )),
        },
{
    match must_pay(funds, &cfg.in_denom) {
        Ok(a) => Ok(WrapperMsg::Mint { amount: Coin { denom: cfg.out_denom.clone(), amount: a }, to: sender.clone() }),
        Err(e) => Err(ContractError::Payment(e)),
    }
}

/// Unwraps the token attached by `sender`: exactly one non-zero coin of the
/// wrapper's token, burned, and as much of the wrapped coin sent back.
pub fn execute_unwrap(cfg: &Config, sender: &String, funds: &Vec<Coin>) -> (r: Result<Vec<WrapperMsg>, ContractError>)
    requires
        cfg.out_denom@.len() > 0,
    ensures
        match must_pay_spec(funds@, cfg.out_denom@) {
            Ok(a) => r is Ok && r->Ok_0@.len() == 2 && (r->Ok_0@[0] matches WrapperMsg::Burn { amount }
                && amount.amount == a && amount.denom@ == cfg.out_denom@) && (r->Ok_0@[1] matches WrapperMsg::Send {
                amount,
                to,
            } && amount.amount == a && amount.denom@ == cfg.in_denom@ && to@ == sender@),
            Err(_) => r is Err && (r->Err_0 matches ContractError::Payment(e) && same_payment(
                Err(e),
                must_pay_spec(funds@, cfg.out_denom@),
                cfg.out_denom@,
            )),
        },
{
    match must_pay(funds, &cfg.out_denom) {
        Ok(a) => {
            let mut msgs: Vec<WrapperMsg> = Vec::new();
            msgs.push(WrapperMsg::Burn { amount: Coin { denom: cfg.out_denom.clone(), amount: a } });
            msgs.push(WrapperMsg::Send { amount: Coin { denom: cfg.in_denom.clone(), amount: a }, to: sender.clone() });
            Ok(msgs)
        },
        Err(e) => Err(ContractError::Payment(e)),
    }
}

} // verus!
