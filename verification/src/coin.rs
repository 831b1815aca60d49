//! Coins and the checks on the funds attached to a message.
use vstd::prelude::*;

verus! {

/// An amount of one denomination.
#[derive(Clone, Debug, PartialEq, Eq)]
pub struct Coin {
    pub denom: String,
    pub amount: u128,
}

impl Coin {
    /// A coin of `amount` units of `denom`.
    pub fn new(amount: u128, denom: String) -> (c: Coin)
        ensures
            c.amount == amount,
            c.denom@ == denom@,
    {
        Coin { denom, amount }
    }
}

/// Why the funds attached to a message were refused (as `cw_utils` reports it).
#[derive(Clone, Debug, PartialEq, Eq)]
pub enum PaymentError {
    /// The denomination that had to be sent.
    MissingDenom(String),
    /// A denomination that was not expected.
    ExtraDenom(String),
    /// More than one coin was attached.
    MultipleDenoms,
    /// No coin, or a single coin of zero amount, was attached.
    NoFunds,
    /// Funds were attached where none are accepted.
    NonPayable,
}

/// What `cw_utils::must_pay` decides for the given funds: the amount of the
/// one non-zero coin attached when it is of `denom`.
pub open spec fn must_pay_spec(funds: Seq<Coin>, denom: Seq<char>) -> Result<u128, PaymentError> {
    if funds.len() == 0 {
        Err(PaymentError::NoFunds)
    } else if funds.len() > 1 {
        Err(PaymentError::MultipleDenoms)
    } else if funds[0].amount == 0 {
        Err(PaymentError::NoFunds)
    } else if funds[0].denom@ != denom {
        Err(PaymentError::MissingDenom(arbitrary()))
    } else {
        Ok(funds[0].amount)
    }
}

/// Whether two payment outcomes agree, errors compared by kind and, for a
/// missing denomination, by the denomination named.
pub open spec fn same_payment(r: Result<u128, PaymentError>, s: Result<u128, PaymentError>, denom: Seq<char>) -> bool {
    match (r, s) {
        (Ok(a), Ok(b)) => a == b,
        (Err(PaymentError::NoFunds), Err(PaymentError::NoFunds)) => true,
        (Err(PaymentError::MultipleDenoms), Err(PaymentError::MultipleDenoms)) => true,
        (Err(PaymentError::MissingDenom(a)), Err(PaymentError::MissingDenom(_))) => a@ == denom,
        _ => false,
    }
}

/// `cw_utils::must_pay`: exactly one coin must be attached, with a non-zero
/// amount (else `NoFunds`, or `MultipleDenoms` for several coins), and of
/// `denom` (else `MissingDenom(denom)`); its amount is returned.
#[verifier::external_body]
pub(crate) fn must_pay(funds: &Vec<Coin>, denom: &String) -> (r: Result<u128, PaymentError>)
    ensures
        same_payment(r, must_pay_spec(funds@, denom@), denom@),
{
    let info = cosmwasm_std::MessageInfo {
        sender: cosmwasm_std::Addr::unchecked(""),
        funds: funds.iter().map(|c| cosmwasm_std::Coin::new(c.amount, c.denom.clone())).collect(),
    };
    match cw_utils::must_pay(&info, denom) {
        Ok(a) => Ok(a.u128()),
        Err(cw_utils::PaymentError::MissingDenom(d)) => Err(PaymentError::MissingDenom(d)),
        Err(cw_utils::PaymentError::ExtraDenom(d)) => Err(PaymentError::ExtraDenom(d)),
        Err(cw_utils::PaymentError::MultipleDenoms {}) => Err(PaymentError::MultipleDenoms),
        Err(cw_utils::PaymentError::NoFunds {}) => Err(PaymentError::NoFunds),
        Err(cw_utils::PaymentError::NonPayable {}) => Err(PaymentError::NonPayable),
    }
}

} // verus!
