//! The factory: it instantiates the whole protocol at once. Every contract
//! gets an address predicted from its code checksum, the factory's address
//! and a common salt, so that each can be told the others' addresses before
//! they exist.
use vstd::prelude::*;
use crate::address::AddressInput;
use crate::decimal::Decimal;
use crate::denom::{full_denom, full_denom_spec};

verus! {

/// The code of each contract of the protocol.
#[derive(Clone, Copy, Debug, PartialEq, Eq, Structural)]
pub struct CodeIds {
    pub token_code_id: u64,
    pub core_code_id: u64,
    pub exchange_rate_provider_contract_code_id: u64,
    pub allowlist_contract_code_id: u64,
    pub fee_collector_contract_code_id: u64,
    pub waitosaur_observer_contract_code_id: u64,
    pub waitosaur_holder_contract_code_id: u64,
    pub withdrawal_manager_contract_code_id: u64,
}

/// What the fee collector is instantiated with.
#[derive(Clone, Copy, Debug, PartialEq, Eq, Structural)]
pub struct FeeMinterParams {
    pub fee_apy_reduction_percentage: Decimal,
    pub collection_period_seconds: u64,
}

/// What the factory is instantiated with.
#[derive(Clone, Debug, PartialEq, Eq)]
pub struct InstantiateMsg {
    pub code_ids: CodeIds,
    /// The salt's bytes.
    pub salt: Vec<u8>,
    pub owner: AddressInput,
    pub operator: String,
    pub ceffu_backend: AddressInput,
    pub deposit_denom: String,
    pub deposit_decimals: u32,
    pub deposit_cost: Decimal,
    pub withdrawal_cost: Decimal,
    pub deposits_cap: Option<u128>,
    pub maxbtc_denom: String,
    pub fee_collector_params: FeeMinterParams,
    pub binance_aum_contract: AddressInput,
    pub waitosaur_observer_unlocker: AddressInput,
    pub deposit_forwarder_contract: String,
    pub exchange_rate_stale_period: u64,
}

/// Who may lock and unlock the waitosaur observer, and what it watches.
#[derive(Clone, Debug, PartialEq, Eq)]
pub struct WaitosaurObserverConfig {
    pub locker: String,
    pub unlocker: String,
    pub contract: String,
    pub asset: String,
}

/// The waitosaur observer's instantiation.
#[derive(Clone, Debug, PartialEq, Eq)]
pub struct WaitosaurObserverInstantiateMsg {
    pub config: WaitosaurObserverConfig,
    pub owner: String,
}

/// Who may lock and unlock the waitosaur holder, and where it pays.
#[derive(Clone, Debug, PartialEq, Eq)]
pub struct WaitosaurHolderConfig {
    pub locker: String,
    pub unlocker: String,
    pub asset: String,
    pub withdraw_manager_contract: String,
}

/// The instantiation message of each contract of the protocol.
#[derive(Clone, Debug, PartialEq, Eq)]
pub enum ChildInstantiateMsg {
    WithdrawalManager { owner: String, factory_contract: String, core_contract: String, token_contract: String, deposit_denom: String },
    WaitosaurObserver(WaitosaurObserverInstantiateMsg),
    AllowList { owner: String },
    ExchangeRateProvider { owner: String },
    FeeCollector {
        owner: String,
        core_contract: String,
        fee_apy_reduction_percentage: Decimal,
        collection_period_seconds: u64,
        fee_denom: String,
        maxbtc_decimals: u32,
    },
    Token { owner: String, factory_contract: String, subdenom: String },
    WaitosaurHolder { owner: String, config: WaitosaurHolderConfig },
    Core {
        owner: String,
        operator: String,
        token_contract: String,
        factory_contract: String,
        deposit_forwarder_contract: String,
        deposit_denom: String,
        deposit_decimals: u32,
        deposit_cost: Decimal,
        deposits_cap: Option<u128>,
        allowlist_contract: String,
        exchange_rate_provider_contract: String,
        fee_collector_contract: String,
        waitosaur_observer_contract: String,
        waitosaur_holder_contract: String,
        withdrawal_manager_contract: String,
    },
}

/// An instantiation at a predicted address, administered by the factory.
#[derive(Clone, Debug, PartialEq, Eq)]
pub struct Instantiate2 {
    pub admin: String,
    pub code_id: u64,
    pub label: String,
    pub msg: ChildInstantiateMsg,
    pub salt: Vec<u8>,
}

/// The addresses of the protocol's contracts.
#[derive(Clone, Debug, PartialEq, Eq)]
pub struct State {
    pub allowlist_contract: String,
    pub exchange_rate_provider_contract: String,
    pub fee_collector_contract: String,
    pub token_contract: String,
    pub core_contract: String,
    pub waitosaur_observer_contract: String,
    pub waitosaur_holder_contract: String,
    pub withdrawal_manager_contract: String,
}

/// The errors of the factory.
#[derive(Clone, Debug, PartialEq, Eq)]
pub enum ContractError {
    /// The checksum of a code is not 32 bytes long.
    InvalidChecksumLength,
    /// The salt is empty or longer than 64 bytes.
    InvalidSaltLength,
    /// An address that the chain does not accept.
    InvalidAddress,
}

/// Queries the factory answers.
#[derive(Clone, Copy, Debug, PartialEq, Eq, Structural)]
pub enum QueryMsg {
    State,
    Ownership,
}

/// The full denom of the token `subdenom` minted by `contract_addr`:
/// `factory/{contract_addr}/{subdenom}`.
pub fn get_maxbtc_denom(contract_addr: String, subdenom: String) -> (d: String)
    ensures
        d@ == full_denom_spec(contract_addr@, subdenom@),
{
    full_denom(contract_addr.as_str(), subdenom.as_str())
}

// ------------------------------------------------------------------------------------------------
// Predicted addresses
// ------------------------------------------------------------------------------------------------

/// The canonical address `cosmwasm_std::instantiate2_address` derives from
/// a code checksum, the creator's canonical address and a salt (a hash of
/// the three).
pub uninterp spec fn instantiate2_address_bytes(checksum: Seq<u8>, creator: Seq<u8>, salt: Seq<u8>) -> Seq<u8>;

/// `cosmwasm_std::instantiate2_address`: refused for a checksum that is not
/// 32 bytes long, then for a salt that is empty or longer than 64 bytes;
/// else the derived 32-byte address.
#[verifier::external_body]
fn instantiate2_address(checksum: &Vec<u8>, creator: &Vec<u8>, salt: &Vec<u8>) -> (r: Result<Vec<u8>, ContractError>)
    ensures
        checksum@.len() != 32 ==> r is Err && r->Err_0 == ContractError::InvalidChecksumLength,
        checksum@.len() == 32 && (salt@.len() == 0 || salt@.len() > 64) ==> r is Err && r->Err_0
            == ContractError::InvalidSaltLength,
        checksum@.len() == 32 && 0 < salt@.len() <= 64 ==> r is Ok && r->Ok_0@ == instantiate2_address_bytes(
            checksum@,
            creator@,
            salt@,
        ) && r->Ok_0@.len() == 32,
{
    let creator = cosmwasm_std::CanonicalAddr::from(creator.as_slice());
    match cosmwasm_std::instantiate2_address(checksum.as_slice(), &creator, salt.as_slice()) {
        Ok(a) => Ok(a.as_slice().to_vec()),
        Err(cosmwasm_std::Instantiate2AddressError::InvalidChecksumLength) => Err(ContractError::InvalidChecksumLength),
        Err(cosmwasm_std::Instantiate2AddressError::InvalidSaltLength) => Err(ContractError::InvalidSaltLength),
    }
}

/// Why an address cannot be predicted from a checksum and the salt.
pub open spec fn prediction_error(checksum: Seq<u8>, salt: Seq<u8>) -> Option<ContractError> {
    if checksum.len() != 32 {
        Some(ContractError::InvalidChecksumLength)
    } else if salt.len() == 0 || salt.len() > 64 {
        Some(ContractError::InvalidSaltLength)
    } else {
        None
    }
}

/// The address a contract of the code with `checksum` gets when the
/// factory at canonical address `creator` instantiates it with `salt`.
pub fn predict_contract_address(checksum: &Vec<u8>, creator: &Vec<u8>, salt: &Vec<u8>) -> (r: Result<Vec<u8>, ContractError>)
    ensures
        match prediction_error(checksum@, salt@) {
            Some(e) => r == Err::<Vec<u8>, ContractError>(e),
            None => r is Ok && r->Ok_0@ == instantiate2_address_bytes(checksum@, creator@, salt@),
        },
{
    instantiate2_address(checksum, creator, salt)
}

/// The checksums of the protocol's codes, in the order the factory
/// predicts their addresses.
pub struct CodeChecksums {
    pub fee_collector: Vec<u8>,
    pub token: Vec<u8>,
    pub exchange_rate_provider: Vec<u8>,
    pub allowlist: Vec<u8>,
    pub core: Vec<u8>,
    pub waitosaur_observer: Vec<u8>,
    pub waitosaur_holder: Vec<u8>,
    pub withdrawal_manager: Vec<u8>,
}

/// The canonical addresses predicted for the protocol's contracts.
pub struct PredictedAddresses {
    pub fee_collector: Vec<u8>,
    pub token: Vec<u8>,
    pub exchange_rate_provider: Vec<u8>,
    pub allowlist: Vec<u8>,
    pub core: Vec<u8>,
    pub waitosaur_observer: Vec<u8>,
    pub waitosaur_holder: Vec<u8>,
    pub withdrawal_manager: Vec<u8>,
}

/// The first code (in the factory's order) whose address cannot be predicted.
pub open spec fn first_prediction_error(c: CodeChecksums, salt: Seq<u8>) -> Option<ContractError> {
    if prediction_error(c.fee_collector@, salt) is Some {
        prediction_error(c.fee_collector@, salt)
    } else if prediction_error(c.token@, salt) is Some {
        prediction_error(c.token@, salt)
    } else if prediction_error(c.exchange_rate_provider@, salt) is Some {
        prediction_error(c.exchange_rate_provider@, salt)
    } else if prediction_error(c.allowlist@, salt) is Some {
        prediction_error(c.allowlist@, salt)
    } else if prediction_error(c.core@, salt) is Some {
        prediction_error(c.core@, salt)
    } else if prediction_error(c.waitosaur_observer@, salt) is Some {
        prediction_error(c.waitosaur_observer@, salt)
    } else if prediction_error(c.waitosaur_holder@, salt) is Some {
        prediction_error(c.waitosaur_holder@, salt)
    } else {
        prediction_error(c.withdrawal_manager@, salt)
    }
}

/// Predicts the address of every contract of the protocol for the factory
/// at canonical address `creator`: refused first for an invalid owner, then
/// for the first code whose address cannot be predicted.
pub fn predict_addresses(msg: &InstantiateMsg, creator: &Vec<u8>, c: &CodeChecksums) -> (r: Result<PredictedAddresses, ContractError>)
    ensures
        !msg.owner.valid ==> r == Err::<PredictedAddresses, ContractError>(ContractError::InvalidAddress),
        msg.owner.valid ==> match first_prediction_error(*c, msg.salt@) {
            Some(e) => r == Err::<PredictedAddresses, ContractError>(e),
            None => r is Ok && {
                let p = r->Ok_0;
                let salt = msg.salt@;
                &&& p.fee_collector@ == instantiate2_address_bytes(c.fee_collector@, creator@, salt)
                &&& p.token@ == instantiate2_address_bytes(c.token@, creator@, salt)
                &&& p.exchange_rate_provider@ == instantiate2_address_bytes(c.exchange_rate_provider@, creator@, salt)
                &&& p.allowlist@ == instantiate2_address_bytes(c.allowlist@, creator@, salt)
                &&& p.core@ == instantiate2_address_bytes(c.core@, creator@, salt)
                &&& p.waitosaur_observer@ == instantiate2_address_bytes(c.waitosaur_observer@, creator@, salt)
                &&& p.waitosaur_holder@ == instantiate2_address_bytes(c.waitosaur_holder@, creator@, salt)
                &&& p.withdrawal_manager@ == instantiate2_address_bytes(c.withdrawal_manager@, creator@, salt)
            },
        },
{
    if !msg.owner.valid {
        return Err(ContractError::InvalidAddress);
    }
    let salt = &msg.salt;
    let fee_collector = match predict_contract_address(&c.fee_collector, creator, salt) {
        Ok(a) => a,
        Err(e) => return Err(e),
    };
    let token = match predict_contract_address(&c.token, creator, salt) {
        Ok(a) => a,
        Err(e) => return Err(e),
    };
    let exchange_rate_provider = match predict_contract_address(&c.exchange_rate_provider, creator, salt) {
        Ok(a) => a,
        Err(e) => return Err(e),
    };
    let allowlist = match predict_contract_address(&c.allowlist, creator, salt) {
        Ok(a) => a,
        Err(e) => return Err(e),
    };
    let core = match predict_contract_address(&c.core, creator, salt) {
        Ok(a) => a,
        Err(e) => return Err(e),
    };
    let waitosaur_observer = match predict_contract_address(&c.waitosaur_observer, creator, salt) {
        Ok(a) => a,
        Err(e) => return Err(e),
    };
    let waitosaur_holder = match predict_contract_address(&c.waitosaur_holder, creator, salt) {
        Ok(a) => a,
        Err(e) => return Err(e),
    };
    let withdrawal_manager = match predict_contract_address(&c.withdrawal_manager, creator, salt) {
        Ok(a) => a,
        Err(e) => return Err(e),
    };
    Ok(
        PredictedAddresses {
            fee_collector,
            token,
            exchange_rate_provider,
            allowlist,
            core,
            waitosaur_observer,
            waitosaur_holder,
            withdrawal_manager,
        },
    )
}

// ------------------------------------------------------------------------------------------------
// Instantiation messages
// ------------------------------------------------------------------------------------------------

/// The common frame of an instantiation: administered by the factory, of
/// `code_id`, under `label`, with the factory's salt.
pub open spec fn frame_ok(m: Instantiate2, factory: Seq<char>, code_id: u64, label: Seq<char>, salt: Seq<u8>) -> bool {
    m.admin@ == factory && m.code_id == code_id && m.label@ == label && m.salt@ == salt
}

/// The eight instantiations, in the order they are sent: the waitosaur
/// observer, the withdrawal manager, the allow-list, the exchange-rate
/// provider, the token, the waitosaur holder, the core contract and the
/// fee collector, each told the predicted addresses of the others.
pub open spec fn messages_ok(msg: InstantiateMsg, factory: Seq<char>, st: State, msgs: Seq<Instantiate2>) -> bool {
    let ids = msg.code_ids;
    let salt = msg.salt@;
    let owner = msg.owner.address@;
    &&& msgs.len() == 8
    &&& frame_ok(msgs[0], factory, ids.waitosaur_observer_contract_code_id, "maxBTC Waitosaur Contract"@, salt)
    &&& msgs[0].msg matches ChildInstantiateMsg::WaitosaurObserver(o) && o.owner@ == owner
        && o.config.locker@ == st.core_contract@ && o.config.unlocker@ == msg.waitosaur_observer_unlocker.address@
        && o.config.contract@ == msg.binance_aum_contract.address@ && o.config.asset@ == msg.deposit_denom@
    &&& frame_ok(msgs[1], factory, ids.withdrawal_manager_contract_code_id, "maxBTC Withdrawal Manager Contract"@, salt)
    &&& msgs[1].msg matches ChildInstantiateMsg::WithdrawalManager { owner: o, factory_contract, core_contract, token_contract, deposit_denom }
        && o@ == owner && factory_contract@ == factory && core_contract@ == st.core_contract@
        && token_contract@ == st.token_contract@ && deposit_denom@ == msg.deposit_denom@
    &&& frame_ok(msgs[2], factory, ids.allowlist_contract_code_id, "maxBTC Allow List Contract"@, salt)
    &&& msgs[2].msg matches ChildInstantiateMsg::AllowList { owner: o } && o@ == owner
    &&& frame_ok(msgs[3], factory, ids.exchange_rate_provider_contract_code_id, "maxBTC Exchange Rate Provider Contract"@, salt)
    &&& msgs[3].msg matches ChildInstantiateMsg::ExchangeRateProvider { owner: o } && o@ == owner
    &&& frame_ok(msgs[4], factory, ids.token_code_id, "maxBTC Token Factory Contract"@, salt)
    &&& msgs[4].msg matches ChildInstantiateMsg::Token { owner: o, factory_contract, subdenom } && o@ == st.core_contract@
        && factory_contract@ == factory && subdenom@ == msg.maxbtc_denom@
    &&& frame_ok(msgs[5], factory, ids.waitosaur_holder_contract_code_id, "maxBTC Waitosaur Holder Contract"@, salt)
    &&& msgs[5].msg matches ChildInstantiateMsg::WaitosaurHolder { owner: o, config } && o@ == owner
        && config.locker@ == msg.ceffu_backend.address@ && config.unlocker@ == st.core_contract@
        && config.asset@ == msg.deposit_denom@ && config.withdraw_manager_contract@ == st.withdrawal_manager_contract@
    &&& frame_ok(msgs[6], factory, ids.core_code_id, "maxBTC Core Contract"@, salt)
    &&& msgs[6].msg matches ChildInstantiateMsg::Core {
        owner: o,
        operator,
        token_contract,
        factory_contract,
        deposit_forwarder_contract,
        deposit_denom,
        deposit_decimals,
        deposit_cost,
        deposits_cap,
        allowlist_contract,
        exchange_rate_provider_contract,
        fee_collector_contract,
        waitosaur_observer_contract,
        waitosaur_holder_contract,
        withdrawal_manager_contract,
    } && o@ == owner && operator@ == msg.operator@ && token_contract@ == st.token_contract@
        && factory_contract@ == factory && deposit_forwarder_contract@ == msg.deposit_forwarder_contract@
        && deposit_denom@ == msg.deposit_denom@ && deposit_decimals == msg.deposit_decimals
        && deposit_cost == msg.deposit_cost && deposits_cap == msg.deposits_cap
        && allowlist_contract@ == st.allowlist_contract@
        && exchange_rate_provider_contract@ == st.exchange_rate_provider_contract@
        && fee_collector_contract@ == st.fee_collector_contract@
        && waitosaur_observer_contract@ == st.waitosaur_observer_contract@
        && waitosaur_holder_contract@ == st.waitosaur_holder_contract@
        && withdrawal_manager_contract@ == st.withdrawal_manager_contract@
    &&& frame_ok(msgs[7], factory, ids.fee_collector_contract_code_id, "maxBTC Fee Collector Contract"@, salt)
    &&& msgs[7].msg matches ChildInstantiateMsg::FeeCollector {
        owner: o,
        core_contract,
        fee_apy_reduction_percentage,
        collection_period_seconds,
        fee_denom,
        maxbtc_decimals,
    } && o@ == owner && core_contract@ == st.core_contract@
        && fee_apy_reduction_percentage == msg.fee_collector_params.fee_apy_reduction_percentage
        && collection_period_seconds == msg.fee_collector_params.collection_period_seconds
        && fee_denom@ == full_denom_spec(st.token_contract@, msg.maxbtc_denom@)
        && maxbtc_decimals == msg.deposit_decimals
}

fn frame(factory: &String, code_id: u64, label: &str, msg: ChildInstantiateMsg, salt: &Vec<u8>) -> (m: Instantiate2)
    ensures
        frame_ok(m, factory@, code_id, label@, salt@),
        m.msg == msg,
{
    let mut s: Vec<u8> = Vec::new();
    let mut i: usize = 0;
    while i < salt.len()
        invariant
            i <= salt@.len(),
            s@ == salt@.take(i as int),
        decreases salt@.len() - i,
    {
        s.push(salt[i]);
        i = i + 1;
        proof {
            assert(s@ =~= salt@.take(i as int));
        }
    }
    proof {
        assert(s@ =~= salt@);
    }
    Instantiate2 { admin: factory.clone(), code_id, label: String::from_str(label), msg, salt: s }
}

/// The instantiation messages of the protocol for the factory at `factory`,
/// given the (human-readable) predicted addresses `st`: refused for an
/// invalid observer unlocker, Binance AUM contract or Ceffu backend; else
/// the eight messages of `messages_ok`.
pub fn instantiate_messages(msg: &InstantiateMsg, factory: &String, st: &State) -> (r: Result<Vec<Instantiate2>, ContractError>)
    ensures
        r is Ok <==> msg.waitosaur_observer_unlocker.valid && msg.binance_aum_contract.valid && msg.ceffu_backend.valid,
        r is Err ==> r == Err::<Vec<Instantiate2>, ContractError>(ContractError::InvalidAddress),
        r is Ok ==> messages_ok(*msg, factory@, *st, r->Ok_0@),
{
    if !msg.waitosaur_observer_unlocker.valid || !msg.binance_aum_contract.valid || !msg.ceffu_backend.valid {
        return Err(ContractError::InvalidAddress);
    }
    let ids = msg.code_ids;
    let owner = &msg.owner.address;
    let salt = &msg.salt;
    let mut msgs: Vec<Instantiate2> = Vec::new();
    msgs.push(
        frame(
            factory,
            ids.waitosaur_observer_contract_code_id,
            "maxBTC Waitosaur Contract",
            ChildInstantiateMsg::WaitosaurObserver(
                WaitosaurObserverInstantiateMsg {
                    config: WaitosaurObserverConfig {
                        locker: st.core_contract.clone(),
                        unlocker: msg.waitosaur_observer_unlocker.address.clone(),
                        contract: msg.binance_aum_contract.address.clone(),
                        asset: msg.deposit_denom.clone(),
                    },
                    owner: owner.clone(),
                },
            ),
            salt,
        ),
    );
    msgs.push(
        frame(
            factory,
            ids.withdrawal_manager_contract_code_id,
            "maxBTC Withdrawal Manager Contract",
            ChildInstantiateMsg::WithdrawalManager {
                owner: owner.clone(),
                factory_contract: factory.clone(),
                core_contract: st.core_contract.clone(),
                token_contract: st.token_contract.clone(),
                deposit_denom: msg.deposit_denom.clone(),
            },
            salt,
        ),
    );
    msgs.push(
        frame(factory, ids.allowlist_contract_code_id, "maxBTC Allow List Contract", ChildInstantiateMsg::AllowList { owner: owner.clone() }, salt),
    );
    msgs.push(
        frame(
            factory,
            ids.exchange_rate_provider_contract_code_id,
            "maxBTC Exchange Rate Provider Contract",
            ChildInstantiateMsg::ExchangeRateProvider { owner: owner.clone() },
            salt,
        ),
    );
    msgs.push(
        frame(
            factory,
            ids.token_code_id,
            "maxBTC Token Factory Contract",
            ChildInstantiateMsg::Token {
                owner: st.core_contract.clone(),
                factory_contract: factory.clone(),
                subdenom: msg.maxbtc_denom.clone(),
            },
            salt,
        ),
    );
    msgs.push(
        frame(
            factory,
            ids.waitosaur_holder_contract_code_id,
            "maxBTC Waitosaur Holder Contract",
            ChildInstantiateMsg::WaitosaurHolder {
                owner: owner.clone(),
                config: WaitosaurHolderConfig {
                    locker: msg.ceffu_backend.address.clone(),
                    unlocker: st.core_contract.clone(),
                    asset: msg.deposit_denom.clone(),
                    withdraw_manager_contract: st.withdrawal_manager_contract.clone(),
                },
            },
            salt,
        ),
    );
    msgs.push(
        frame(
            factory,
            ids.core_code_id,
            "maxBTC Core Contract",
            ChildInstantiateMsg::Core {
                owner: owner.clone(),
                operator: msg.operator.clone(),
                token_contract: st.token_contract.clone(),
                factory_contract: factory.clone(),
                deposit_forwarder_contract: msg.deposit_forwarder_contract.clone(),
                deposit_denom: msg.deposit_denom.clone(),
                deposit_decimals: msg.deposit_decimals,
                deposit_cost: msg.deposit_cost,
                deposits_cap: msg.deposits_cap,
                allowlist_contract: st.allowlist_contract.clone(),
                exchange_rate_provider_contract: st.exchange_rate_provider_contract.clone(),
                fee_collector_contract: st.fee_collector_contract.clone(),
                waitosaur_observer_contract: st.waitosaur_observer_contract.clone(),
                waitosaur_holder_contract: st.waitosaur_holder_contract.clone(),
                withdrawal_manager_contract: st.withdrawal_manager_contract.clone(),
            },
            salt,
        ),
    );
    msgs.push(
        frame(
            factory,
            ids.fee_collector_contract_code_id,
            "maxBTC Fee Collector Contract",
            ChildInstantiateMsg::FeeCollector {
                owner: owner.clone(),
                core_contract: st.core_contract.clone(),
                fee_apy_reduction_percentage: msg.fee_collector_params.fee_apy_reduction_percentage,
                collection_period_seconds: msg.fee_collector_params.collection_period_seconds,
                fee_denom: get_maxbtc_denom(st.token_contract.clone(), msg.maxbtc_denom.clone()),
                maxbtc_decimals: msg.deposit_decimals,
            },
            salt,
        ),
    );
    Ok(msgs)
}

} // verus!
