//! The pump: on its executor's push it sends the deposit coin from Neutron to
//! Ethereum through IBC Eureka, checking the oracle-provided route and fee
//! against its configuration and writing the callback memo of the transfer.
use vstd::prelude::*;
use crate::address::AddressInput;
use crate::coin::Coin;

verus! {

/// The memo encoding the Eureka callback expects.
pub open spec fn eureka_memo_encoding() -> Seq<char> {
    "application/x-solidity-abi"@
}

/// The pump's configuration.
#[derive(Clone, Debug, PartialEq, Eq)]
pub struct Config {
    /// The address that may change the configuration.
    pub owner: String,
    /// The address that may push transfers.
    pub executor: String,
    /// The denom sent to Ethereum.
    pub transfer_denom: String,
    /// The receiver on the destination chain.
    pub to_chain_receiver: String,
    pub recover_address: String,
    /// The IBC port on Neutron.
    pub source_port: String,
    /// The expected Eureka channel on the Hub.
    pub eureka_source_channel: String,
    /// The IBC channel on Neutron.
    pub neutron_source_channel: String,
    /// The expected entry contract on the Hub.
    pub to_chain_entry_contract_address: String,
    /// The expected callback contract on the Hub.
    pub to_chain_callback_contract_address: String,
    /// The highest Eureka fee paid.
    pub max_fee: Coin,
    pub oracle_address: String,
    pub exact_out: bool,
    /// The fee of Neutron's relayers.
    pub relay_fee: Coin,
}

/// What the pump is instantiated with.
#[derive(Clone, Debug, PartialEq, Eq)]
pub struct InstantiateMsg {
    pub owner: AddressInput,
    pub executor: AddressInput,
    pub transfer_denom: String,
    pub receiver: String,
    pub recover_address: String,
    pub source_port: String,
    pub eureka_source_channel: String,
    pub neutron_source_channel: String,
    pub to_chain_entry_contract_address: String,
    pub to_chain_callback_contract_address: String,
    pub max_fee: Coin,
    pub oracle_address: AddressInput,
    pub exact_out: bool,
    pub relay_fee: Coin,
}

/// The errors of the pump.
#[derive(Clone, Debug, PartialEq, Eq)]
pub enum ContractError {
    Unauthorized,
    InvalidFee,
    OracleMismatch { value: String },
    InvalidReplyID,
    /// The coin pushed is not of the transfer denom.
    InvalidTransferDenom,
    /// An address that the chain does not accept.
    InvalidAddress,
}

/// Queries the pump answers.
#[derive(Clone, Copy, Debug, PartialEq, Eq, Structural)]
pub enum QueryMsg {
    Config,
}

/// The Eureka fee of a transfer.
#[derive(Clone, Debug, PartialEq, Eq)]
pub struct EurekaFee {
    pub coin: Coin,
    pub receiver: String,
    pub timeout_timestamp: u64,
}

/// The Eureka part of the callback.
#[derive(Clone, Debug, PartialEq, Eq)]
pub struct IbcInfo {
    pub encoding: String,
    pub eureka_fee: EurekaFee,
    pub memo: String,
    pub receiver: String,
    pub recover_address: String,
    pub source_channel: String,
}

#[derive(Clone, Debug, PartialEq, Eq)]
pub struct IbcTransfer {
    pub ibc_info: IbcInfo,
}

#[derive(Clone, Debug, PartialEq, Eq)]
pub enum IbcTransferAction {
    IbcTransfer(IbcTransfer),
}

#[derive(Clone, Debug, PartialEq, Eq)]
pub struct Action {
    pub action: IbcTransferAction,
}

#[derive(Clone, Debug, PartialEq, Eq)]
pub struct WasmMsg {
    pub action: Action,
    pub exact_out: bool,
    /// Unix seconds.
    pub timeout_timestamp: u64,
}

#[derive(Clone, Debug, PartialEq, Eq)]
pub struct Wasm {
    pub contract: String,
    pub msg: WasmMsg,
}

/// The contract called back on the destination chain.
#[derive(Clone, Debug, PartialEq, Eq)]
pub struct DestCallback {
    pub address: String,
}

/// The memo of the transfer packet.
#[derive(Clone, Debug, PartialEq, Eq)]
pub struct Memo {
    pub dest_callback: DestCallback,
    pub wasm: Wasm,
}

/// The IBC transfer the pump sends (from its own address).
#[derive(Clone, Debug, PartialEq, Eq)]
pub struct Transfer {
    pub source_port: String,
    pub source_channel: String,
    pub receiver: String,
    pub token: Coin,
    /// Unix nanoseconds.
    pub timeout_timestamp: u64,
    pub memo: Memo,
    pub recv_fee: Vec<Coin>,
    pub ack_fee: Vec<Coin>,
    pub timeout_fee: Vec<Coin>,
}

/// The relayer fee item: nothing for a zero amount, else one coin.
pub open spec fn fee_item_ok(denom: Seq<char>, amount: u128, v: Seq<Coin>) -> bool {
    if amount == 0 {
        v.len() == 0
    } else {
        v.len() == 1 && v[0].denom@ == denom && v[0].amount == amount
    }
}

/// The relayer fee item of `amount` of `denom`.
pub fn get_fee_item(denom: &String, amount: u128) -> (v: Vec<Coin>)
    ensures
        fee_item_ok(denom@, amount, v@),
{
    let mut v: Vec<Coin> = Vec::new();
    if amount != 0 {
        v.push(Coin { denom: denom.clone(), amount });
    }
    v
}

/// Instantiates the pump: refused for an invalid owner, executor or oracle
/// address; else every field from the message.
pub fn instantiate(m: &InstantiateMsg) -> (r: Result<Config, ContractError>)
    ensures
        r is Ok <==> m.owner.valid && m.executor.valid && m.oracle_address.valid,
        r is Err ==> r == Err::<Config, ContractError>(ContractError::InvalidAddress),
        r is Ok ==> {
            let c = r->Ok_0;
            &&& c.owner@ == m.owner.address@
            &&& c.executor@ == m.executor.address@
            &&& c.oracle_address@ == m.oracle_address.address@
            &&& c.transfer_denom@ == m.transfer_denom@
            &&& c.to_chain_receiver@ == m.receiver@
            &&& c.recover_address@ == m.recover_address@
            &&& c.source_port@ == m.source_port@
            &&& c.eureka_source_channel@ == m.eureka_source_channel@
            &&& c.neutron_source_channel@ == m.neutron_source_channel@
            &&& c.to_chain_entry_contract_address@ == m.to_chain_entry_contract_address@
            &&& c.to_chain_callback_contract_address@ == m.to_chain_callback_contract_address@
            &&& c.max_fee.denom@ == m.max_fee.denom@ && c.max_fee.amount == m.max_fee.amount
            &&& c.exact_out == m.exact_out
            &&& c.relay_fee.denom@ == m.relay_fee.denom@ && c.relay_fee.amount == m.relay_fee.amount
        },
{
    if !m.owner.valid || !m.executor.valid || !m.oracle_address.valid {
        return Err(ContractError::InvalidAddress);
    }
    Ok(
        Config {
            owner: m.owner.address.clone(),
            executor: m.executor.address.clone(),
            transfer_denom: m.transfer_denom.clone(),
            to_chain_receiver: m.receiver.clone(),
            recover_address: m.recover_address.clone(),
            source_port: m.source_port.clone(),
            eureka_source_channel: m.eureka_source_channel.clone(),
            neutron_source_channel: m.neutron_source_channel.clone(),
            to_chain_entry_contract_address: m.to_chain_entry_contract_address.clone(),
            to_chain_callback_contract_address: m.to_chain_callback_contract_address.clone(),
            max_fee: Coin { denom: m.max_fee.denom.clone(), amount: m.max_fee.amount },
            oracle_address: m.oracle_address.address.clone(),
            exact_out: m.exact_out,
            relay_fee: Coin { denom: m.relay_fee.denom.clone(), amount: m.relay_fee.amount },
        },
    )
}

/// Why a push is refused, in the order of the checks: the sender is not the
/// executor, the fee is above the maximum or of another denom, the entry
/// contract, callback contract or Eureka channel differ from the
/// configuration, or the coin is not of the transfer denom.
pub open spec fn push_error(cfg: Config, sender: Seq<char>, amount: Coin, fee: EurekaFee, entry: Seq<char>, callback: Seq<char>, channel: Seq<char>) -> Option<ContractError> {
    if sender != cfg.executor@ {
        Some(ContractError::Unauthorized)
    } else if fee.coin.amount > cfg.max_fee.amount || fee.coin.denom@ != cfg.max_fee.denom@ {
        Some(ContractError::InvalidFee)
    } else if entry != cfg.to_chain_entry_contract_address@ {
        Some(ContractError::OracleMismatch { value: arbitrary() })
    } else if callback != cfg.to_chain_callback_contract_address@ {
        Some(ContractError::OracleMismatch { value: arbitrary() })
    } else if channel != cfg.eureka_source_channel@ {
        Some(ContractError::OracleMismatch { value: arbitrary() })
    } else if amount.denom@ != cfg.transfer_denom@ {
        Some(ContractError::InvalidTransferDenom)
    } else {
        None
    }
}

/// The transfer a push sends: `amount` from the Neutron channel to the
/// entry contract, timing out with the fee, with relayer fees on every
/// stage, and the memo that calls the callback contract to forward it over
/// Eureka to the configured receiver (the full timeout in whole seconds).
pub open spec fn transfer_ok(cfg: Config, amount: Coin, fee: EurekaFee, channel: Seq<char>, fee_timeout: u64, full_timeout: u64, t: Transfer) -> bool {
    let info = match t.memo.wasm.msg.action.action {
        IbcTransferAction::IbcTransfer(x) => x.ibc_info,
    };
    &&& t.source_port@ == cfg.source_port@
    &&& t.source_channel@ == cfg.neutron_source_channel@
    &&& t.receiver@ == cfg.to_chain_entry_contract_address@
    &&& t.token.denom@ == amount.denom@ && t.token.amount == amount.amount
    &&& t.timeout_timestamp == fee_timeout
    &&& fee_item_ok(cfg.relay_fee.denom@, cfg.relay_fee.amount, t.recv_fee@)
    &&& fee_item_ok(cfg.relay_fee.denom@, cfg.relay_fee.amount, t.ack_fee@)
    &&& fee_item_ok(cfg.relay_fee.denom@, cfg.relay_fee.amount, t.timeout_fee@)
    &&& t.memo.dest_callback.address@ == cfg.to_chain_entry_contract_address@
    &&& t.memo.wasm.contract@ == cfg.to_chain_callback_contract_address@
    &&& t.memo.wasm.msg.exact_out == cfg.exact_out
    &&& t.memo.wasm.msg.timeout_timestamp == full_timeout / 1_000_000_000
    &&& info.encoding@ == eureka_memo_encoding()
    &&& info.eureka_fee.coin.denom@ == fee.coin.denom@ && info.eureka_fee.coin.amount == fee.coin.amount
    &&& info.eureka_fee.receiver@ == fee.receiver@
    &&& info.eureka_fee.timeout_timestamp == fee_timeout
    &&& info.memo@.len() == 0
    &&& info.receiver@ == cfg.to_chain_receiver@
    &&& info.recover_address@ == cfg.recover_address@
    &&& info.source_channel@ == channel
}

/// The executor's push of `amount` to Ethereum.
pub fn execute_transfer(
    cfg: &Config,
    sender: &String,
    amount: &Coin,
    eureka_fee: &EurekaFee,
    oracle_entry_address: &String,
    oracle_callback_address: &String,
    eureka_source_channel: &String,
    eureka_fee_timeout_nano: u64,
    eureka_full_timeout_nano: u64,
) -> (r: Result<Transfer, ContractError>)
    ensures
        match r {
            Ok(t) => push_error(*cfg, sender@, *amount, *eureka_fee, oracle_entry_address@, oracle_callback_address@, eureka_source_channel@) is None
                && transfer_ok(*cfg, *amount, *eureka_fee, eureka_source_channel@, eureka_fee_timeout_nano, eureka_full_timeout_nano, t),
            Err(e) => push_error(*cfg, sender@, *amount, *eureka_fee, oracle_entry_address@, oracle_callback_address@, eureka_source_channel@) is Some
                && match (e, push_error(*cfg, sender@, *amount, *eureka_fee, oracle_entry_address@, oracle_callback_address@, eureka_source_channel@).unwrap()) {
                    (ContractError::OracleMismatch { value: v }, ContractError::OracleMismatch { .. }) =>
                        (oracle_entry_address@ != cfg.to_chain_entry_contract_address@ ==> v@ == oracle_entry_address@)
                        && (oracle_entry_address@ == cfg.to_chain_entry_contract_address@
                            && oracle_callback_address@ != cfg.to_chain_callback_contract_address@ ==> v@ == oracle_callback_address@)
                        && (oracle_entry_address@ == cfg.to_chain_entry_contract_address@
                            && oracle_callback_address@ == cfg.to_chain_callback_contract_address@ ==> v@ == eureka_source_channel@),
                    (a, b) => a == b,
                },
        },
{
    if !sender.eq(&cfg.executor) {
        return Err(ContractError::Unauthorized);
    }
    if eureka_fee.coin.amount > cfg.max_fee.amount || !eureka_fee.coin.denom.eq(&cfg.max_fee.denom) {
        return Err(ContractError::InvalidFee);
    }
    if !oracle_entry_address.eq(&cfg.to_chain_entry_contract_address) {
        return Err(ContractError::OracleMismatch { value: oracle_entry_address.clone() });
    }
    if !oracle_callback_address.eq(&cfg.to_chain_callback_contract_address) {
        return Err(ContractError::OracleMismatch { value: oracle_callback_address.clone() });
    }
    if !eureka_source_channel.eq(&cfg.eureka_source_channel) {
        return Err(ContractError::OracleMismatch { value: eureka_source_channel.clone() });
    }
    if !amount.denom.eq(&cfg.transfer_denom) {
        return Err(ContractError::InvalidTransferDenom);
    }
    let info = IbcInfo {
        encoding: String::from_str("application/x-solidity-abi"),
        eureka_fee: EurekaFee {
            coin: Coin { denom: eureka_fee.coin.denom.clone(), amount: eureka_fee.coin.amount },
            receiver: eureka_fee.receiver.clone(),
            timeout_timestamp: eureka_fee_timeout_nano,
        },
        memo: String::new(),
        receiver: cfg.to_chain_receiver.clone(),
        recover_address: cfg.recover_address.clone(),
        source_channel: eureka_source_channel.clone(),
    };
    let memo = Memo {
        dest_callback: DestCallback { address: cfg.to_chain_entry_contract_address.clone() },
        wasm: Wasm {
            contract: cfg.to_chain_callback_contract_address.clone(),
            msg: WasmMsg {
                action: Action { action: IbcTransferAction::IbcTransfer(IbcTransfer { ibc_info: info }) },
                exact_out: cfg.exact_out,
                timeout_timestamp: eureka_full_timeout_nano / 1_000_000_000,
            },
        },
    };
    Ok(
        Transfer {
            source_port: cfg.source_port.clone(),
            source_channel: cfg.neutron_source_channel.clone(),
            receiver: cfg.to_chain_entry_contract_address.clone(),
            token: Coin { denom: amount.denom.clone(), amount: amount.amount },
            timeout_timestamp: eureka_fee_timeout_nano,
            memo,
            recv_fee: get_fee_item(&cfg.relay_fee.denom, cfg.relay_fee.amount),
            ack_fee: get_fee_item(&cfg.relay_fee.denom, cfg.relay_fee.amount),
            timeout_fee: get_fee_item(&cfg.relay_fee.denom, cfg.relay_fee.amount),
        },
    )
}

} // verus!
