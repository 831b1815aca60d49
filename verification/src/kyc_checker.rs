//! The KYC checker: it forwards whether a user passed KYC to the zkMe
//! verification contract, on behalf of a configured cooperator.
use vstd::prelude::*;
use crate::address::{AddressInput, OwnershipError, assert_owner};

verus! {

/// The checker's configuration.
#[derive(Clone, Debug, PartialEq, Eq)]
pub struct Config {
    pub zkme_verify_upgradeable_contract: String,
    pub cooperator_address: String,
}

/// The changes the owner asks for; an absent field stays as it is.
#[derive(Clone, Debug, PartialEq, Eq)]
pub struct ConfigOptional {
    pub zkme_verify_upgradeable_contract: Option<String>,
    pub cooperator_address: Option<String>,
}

/// The query asked of the zkMe contract.
#[derive(Clone, Debug, PartialEq, Eq)]
pub enum ZkmeVerifyQueryMsg {
    HasApproved { cooperator: String, user: String },
}

/// Queries the checker answers.
#[derive(Clone, Debug, PartialEq, Eq)]
pub enum QueryMsg {
    HasApproved { user: String },
    GetConfig,
    Ownership,
}

/// The errors of the checker.
#[derive(Clone, Copy, Debug, PartialEq, Eq, Structural)]
pub enum ContractError {
    Ownership(OwnershipError),
    /// An address that the chain does not accept.
    InvalidAddress,
}

/// What the checker is instantiated with.
#[derive(Clone, Debug, PartialEq, Eq)]
pub struct InstantiateMsg {
    pub owner: AddressInput,
    pub zkme_verify_upgradeable_contract: AddressInput,
    pub cooperator_address: String,
}

impl InstantiateMsg {
    /// The configuration of the message: refused for an invalid zkMe contract.
    pub fn into_config(self) -> (r: Result<Config, ContractError>)
        ensures
            r is Ok <==> self.zkme_verify_upgradeable_contract.valid,
            r is Err ==> r == Err::<Config, ContractError>(ContractError::InvalidAddress),
            r is Ok ==> r->Ok_0.zkme_verify_upgradeable_contract@ == self.zkme_verify_upgradeable_contract.address@
                && r->Ok_0.cooperator_address@ == self.cooperator_address@,
    {
        if !self.zkme_verify_upgradeable_contract.valid {
            return Err(ContractError::InvalidAddress);
        }
        Ok(
            Config {
                zkme_verify_upgradeable_contract: self.zkme_verify_upgradeable_contract.address,
                cooperator_address: self.cooperator_address,
            },
        )
    }
}

/// Instantiates the checker: refused for an invalid owner or zkMe contract.
pub fn instantiate(msg: InstantiateMsg) -> (r: Result<Config, ContractError>)
    ensures
        r is Ok <==> msg.owner.valid && msg.zkme_verify_upgradeable_contract.valid,
        r is Err ==> r == Err::<Config, ContractError>(ContractError::InvalidAddress),
        r is Ok ==> r->Ok_0.zkme_verify_upgradeable_contract@ == msg.zkme_verify_upgradeable_contract.address@
            && r->Ok_0.cooperator_address@ == msg.cooperator_address@,
{
    if !msg.owner.valid {
        return Err(ContractError::InvalidAddress);
    }
    msg.into_config()
}

/// The query that tells whether `user` passed KYC: asked of the zkMe
/// contract for the configured cooperator.
pub fn query_has_approved(cfg: &Config, user: String) -> (q: (String, ZkmeVerifyQueryMsg))
    ensures
        q.0@ == cfg.zkme_verify_upgradeable_contract@,
        q.1 matches ZkmeVerifyQueryMsg::HasApproved { cooperator, user: u } && cooperator@ == cfg.cooperator_address@
            && u@ == user@,
{
    (
        cfg.zkme_verify_upgradeable_contract.clone(),
        ZkmeVerifyQueryMsg::HasApproved { cooperator: cfg.cooperator_address.clone(), user },
    )
}

/// The owner's update of the configuration: refused to anyone but the owner
/// and for an invalid new zkMe contract (`zkme_valid` tells whether the new
/// one, if any, is valid).
pub fn execute_update_config(cfg: &Config, owner: &Option<String>, sender: &String, new_config: &ConfigOptional, zkme_valid: bool) -> (r: Result<Config, ContractError>)
    ensures
        owner is None ==> r == Err::<Config, ContractError>(ContractError::Ownership(OwnershipError::NoOwner)),
        owner is Some && owner.unwrap()@ != sender@ ==> r == Err::<Config, ContractError>(
            ContractError::Ownership(OwnershipError::NotOwner),
        ),
        owner is Some && owner.unwrap()@ == sender@ && new_config.zkme_verify_upgradeable_contract is Some && !zkme_valid
            ==> r == Err::<Config, ContractError>(ContractError::InvalidAddress),
        r is Ok <==> owner is Some && owner.unwrap()@ == sender@ && (new_config.zkme_verify_upgradeable_contract is Some
            ==> zkme_valid),
        r is Ok ==> r->Ok_0.zkme_verify_upgradeable_contract@ == (match new_config.zkme_verify_upgradeable_contract {
            Some(a) => a@,
            None => cfg.zkme_verify_upgradeable_contract@,
        }) && r->Ok_0.cooperator_address@ == (match new_config.cooperator_address {
            Some(a) => a@,
            None => cfg.cooperator_address@,
        }),
{
    match assert_owner(owner, sender) {
        Ok(()) => {},
        Err(e) => return Err(ContractError::Ownership(e)),
    }
    let zkme = match &new_config.zkme_verify_upgradeable_contract {
        Some(a) => {
            if !zkme_valid {
                return Err(ContractError::InvalidAddress);
            }
            a.clone()
        },
        None => cfg.zkme_verify_upgradeable_contract.clone(),
    };
    let cooperator = match &new_config.cooperator_address {
        Some(a) => a.clone(),
        None => cfg.cooperator_address.clone(),
    };
    Ok(Config { zkme_verify_upgradeable_contract: zkme, cooperator_address: cooperator })
}

} // verus!
