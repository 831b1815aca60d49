//! The maxBTC minter: deposits mint maxBTC at the exchange rate, deposits are
//! flushed to custody while a liquidation buffer is kept topped up, and
//! withdrawals are gathered into batches that are paid out once the BTC has
//! come back from custody.
//!
//! The contract's storage, its queries and the messages it sends are handled
//! by the caller; the functions here decide, from the stored state and the
//! values the queries returned, what the new state is and which messages go
//! out.
use vstd::prelude::*;
use crate::address::{AddressInput, address_input_ok, address_ok, all_valid, updated_address, validated_list};
use crate::coin::Coin;
use crate::decimal::{
    Decimal, DECIMAL_FRACTIONAL, dec_to_amount, div_atomics, fits_u128, from_atomics_spec, from_ratio_spec,
    mul_atomics, pow10, pow10_u128,
};
use crate::denom::{
    count_slashes, full_denom, full_denom_spec, parse_u64, parse_u64_spec, redemption_denom,
    redemption_prefix, redemption_subdenom, slash_count, starts_with, decimal_string,
};

verus! {

/// The minter's configuration.
#[derive(Clone, Debug, PartialEq, Eq)]
pub struct Config {
    /// When set, every user-facing action is refused.
    pub paused: bool,
    /// The address allowed to change the configuration.
    pub owner: String,
    /// The oracle reporting the BTC held in custody.
    pub aum_contract: String,
    /// The liquidation buffer contract.
    pub liquidation_buffer_contract: String,
    /// The contract that forwards flushed deposits to custody.
    pub deposit_pump_contract: String,
    /// The account that receives BTC shipped back from custody.
    pub collector_contract: String,
    /// The account that receives surplus BTC.
    pub treasury_address: String,
    /// Denom of user deposits.
    pub deposit_denom: String,
    /// Number of decimals of the deposit coin.
    pub deposit_decimals: u32,
    /// The token-factory sub-denom of maxBTC.
    pub maxbtc_denom: String,
    /// Seconds that must pass between deposit flushes.
    pub deposit_flush_period: u64,
    /// Seconds after which an active batch may move to withdrawing.
    pub batch_active_duration: u64,
    /// Seconds after which a withdrawing batch may be finalized.
    pub batch_withdrawing_duration: u64,
    /// Tolerance on the collected amount of a withdrawing batch.
    pub collected_tolerance: Decimal,
    /// The share of the AUM to hold in the liquidation buffer.
    pub liquidation_buffer_share: Decimal,
    /// The deposit fee, e.g. 0.003 for 0.3%.
    pub deposit_fee: Decimal,
    /// Tolerance on the flushed deposit reaching custody.
    pub deposit_buffer_tolerance: Decimal,
    /// Lifetime in seconds of a cached exchange rate.
    pub cached_er_ttl: u64,
    /// Optional cap on the AUM above which deposits are refused.
    pub deposits_cap: Option<u128>,
    /// Optional list of the only recipients allowed to receive minted maxBTC.
    pub deposits_allowlist: Option<Vec<String>>,
}

impl Config {
    /// The full denom of maxBTC minted by the contract at `contract_addr`.
    pub fn get_maxbtc_denom(&self, contract_addr: String) -> (d: String)
        ensures
            d@ == full_denom_spec(contract_addr@, self.maxbtc_denom@),
    {
        full_denom(contract_addr.as_str(), self.maxbtc_denom.as_str())
    }

    /// The full denom of the redemption token of batch `batch_id`.
    pub fn get_redemption_denom(&self, contract_addr: String, batch_id: String) -> (d: String)
        ensures
            d@ == redemption_prefix(contract_addr@) + batch_id@,
    {
        redemption_denom(contract_addr.as_str(), batch_id.as_str())
    }
}

/// A withdrawal batch.
#[derive(Clone, Copy, Debug, PartialEq, Eq, Structural)]
pub struct Batch {
    pub batch_id: u64,
    /// How much BTC the batch requested once it moved to withdrawing.
    pub btc_requested: u128,
    /// The amount of maxBTC burned into this batch.
    pub maxbtc_burned: u128,
    /// How much BTC was collected for the batch once finalized.
    pub collected_amount: u128,
    /// How much of the collected BTC was already paid to users.
    pub paid_amount: u128,
    /// The collector balance recorded when the batch moved to withdrawing.
    pub collector_historical_balance: u128,
}

/// The AUM figures cached with the exchange rate during a flush.
#[derive(Clone, Copy, Debug, PartialEq, Eq, Structural)]
pub struct CachedAUM {
    pub oracle_aum: u128,
    pub deposit_buffer: u128,
}

/// An exchange rate frozen for the duration of a multi-block operation.
#[derive(Clone, Copy, Debug, PartialEq, Eq, Structural)]
pub struct CachedER {
    pub er: Decimal,
    /// Block time in seconds after which the cache is stale.
    pub timeout: u64,
    pub aum: Option<CachedAUM>,
}

/// The contract's state machine.
#[derive(Clone, Copy, Debug, PartialEq, Eq, Structural)]
pub enum ContractState {
    Idle,
    Flushing,
    Withdrawing,
}

/// The errors of the minter.
#[derive(Clone, Debug, PartialEq, Eq)]
pub enum ContractError {
    Unauthorized,
    ContractPaused,
    NoFundsSent,
    InvalidDepositDenom { expected: String, received: String },
    InvalidDepositAmount,
    InvalidWithdrawAmount,
    BatchStateError,
    BatchNotFinalized,
    CannotProcessActiveBatchYet,
    CannotFinalizeWithdrawingBatchYet,
    ProtocolInEmergency,
    RedemptionSupplyMismatch,
    WrongRedemptionTokenOrNoFunds,
    DecimalRangeExceeded,
    DepositCapExceeded,
    /// An address that the chain does not accept.
    InvalidAddress,
    /// The state machine was asked for a transition it does not allow.
    InvalidTransition { from: ContractState, to: ContractState },
}

/// The transitions the state machine allows.
pub open spec fn allowed_transition(from: ContractState, to: ContractState) -> bool {
    ||| from == ContractState::Idle && to == ContractState::Flushing
    ||| from == ContractState::Flushing && to == ContractState::Idle
    ||| from == ContractState::Idle && to == ContractState::Withdrawing
    ||| from == ContractState::Withdrawing && to == ContractState::Idle
}

/// Whether the state machine allows moving from `from` to `to`.
pub fn is_transition_allowed(from: ContractState, to: ContractState) -> (b: bool)
    ensures
        b == allowed_transition(from, to),
{
    match (from, to) {
        (ContractState::Idle, ContractState::Flushing) => true,
        (ContractState::Flushing, ContractState::Idle) => true,
        (ContractState::Idle, ContractState::Withdrawing) => true,
        (ContractState::Withdrawing, ContractState::Idle) => true,
        _ => false,
    }
}

/// Moves the state machine to `to`, refusing transitions it does not allow.
pub fn go_to(from: ContractState, to: ContractState) -> (r: Result<ContractState, ContractError>)
    ensures
        allowed_transition(from, to) ==> r == Ok::<ContractState, ContractError>(to),
        !allowed_transition(from, to) ==> r == Err::<ContractState, ContractError>(
            ContractError::InvalidTransition { from, to },
        ),
{
    if is_transition_allowed(from, to) {
        Ok(to)
    } else {
        Err(ContractError::InvalidTransition { from, to })
    }
}

/// Everything the minter keeps in storage but the finalized batches.
#[derive(Clone, Copy, Debug, PartialEq, Eq, Structural)]
pub struct MinterState {
    pub fsm: ContractState,
    pub active_batch: Option<Batch>,
    pub withdrawing_batch: Option<Batch>,
    pub batch_id_counter: u64,
    pub last_deposit_flush_time: u64,
    pub active_batch_start_time: u64,
    pub cached_er: Option<CachedER>,
}

/// The invariant every handler keeps: an exchange rate is cached exactly
/// while a multi-block operation is under way, and a batch is withdrawing
/// exactly while the machine is in `Withdrawing`.
pub open spec fn state_consistent(st: MinterState) -> bool {
    &&& (st.cached_er is Some <==> st.fsm != ContractState::Idle)
    &&& (st.fsm == ContractState::Withdrawing <==> st.withdrawing_batch is Some)
    &&& (st.fsm == ContractState::Flushing ==> st.cached_er.unwrap().aum is Some)
    &&& st.active_batch is Some
}

/// The values the handlers read from other contracts and the bank module.
#[derive(Clone, Copy, Debug, PartialEq, Eq, Structural)]
pub struct Queried {
    /// The AUM reported by the oracle.
    pub oracle_aum: u128,
    /// This contract's balance of the deposit denom.
    pub deposit_buffer: u128,
    /// The liquidation buffer's BTC balance.
    pub liquidation_btc_balance: u128,
    /// The liquidation buffer's maxBTC balance.
    pub liquidation_maxbtc_balance: u128,
    /// The bank supply of maxBTC.
    pub maxbtc_supply: u128,
    /// The collector's balance of the deposit denom.
    pub collector_balance: u128,
}

/// A message the minter sends.
#[derive(Clone, Debug, PartialEq, Eq)]
pub enum MinterMsg {
    /// A bank transfer from this contract.
    BankSend { to_address: String, amount: Coin },
    /// A token-factory mint of `amount.denom` (a sub-denom of this contract).
    TokenMint { amount: Coin, mint_to_address: String },
    /// A token-factory burn.
    TokenBurn { amount: Coin, burn_from_address: String },
    /// A token-factory denom creation.
    CreateDenom { subdenom: String },
    /// A request to the liquidation buffer to send back `amount`.
    ClawBack { contract_addr: String, amount: Coin },
}

// ------------------------------------------------------------------------------------------------
// Exchange rate
// ------------------------------------------------------------------------------------------------

/// A decimal's atomics as an amount in the deposit coin's units (with
/// `decimals` fractional digits), rounded down.
pub open spec fn to_units(atomics: int, decimals: u32) -> u128 {
    (atomics as nat / pow10((18 - decimals) as nat)) as u128
}

/// The protocol's assets: oracle AUM, deposit buffer and liquidation buffer BTC.
pub open spec fn aum_spec(q: Queried) -> int {
    q.oracle_aum + q.deposit_buffer + q.liquidation_btc_balance
}

/// The maxBTC in circulation: bank supply less what the liquidation buffer holds.
pub open spec fn circulating_spec(q: Queried) -> int {
    q.maxbtc_supply - q.liquidation_maxbtc_balance
}

/// The denominator of the computed exchange rate.
pub open spec fn er_denominator_spec(q: Queried, active: Batch) -> int {
    circulating_spec(q) + active.btc_requested - q.liquidation_maxbtc_balance
}

/// The inputs on which computing the exchange rate aborts on an arithmetic
/// overflow or underflow.
pub open spec fn er_aborts(st: MinterState, cfg: Config, q: Queried) -> bool {
    &&& st.cached_er is None
    &&& {
        ||| !fits_u128(aum_spec(q))
        ||| {
            &&& !(cfg.deposits_cap matches Some(cap) && aum_spec(q) > cap)
            &&& {
                ||| circulating_spec(q) < 0
                ||| (st.active_batch matches Some(active) && {
                    ||| !fits_u128(circulating_spec(q) + active.btc_requested)
                    ||| er_denominator_spec(q, active) < 0
                    ||| (er_denominator_spec(q, active) > 0 && !fits_u128(
                        div_atomics(aum_spec(q), er_denominator_spec(q, active)),
                    ))
                })
            }
        }
    }
}

/// The exchange rate: the cached one while an operation is under way, else
/// AUM over circulating maxBTC plus the BTC requested by the active batch
/// (one when that is zero); refused above the deposit cap.
pub open spec fn exchange_rate_spec(st: MinterState, cfg: Config, q: Queried) -> Result<Decimal, ContractError> {
    match st.cached_er {
        Some(c) => Ok(c.er),
        None => if cfg.deposits_cap matches Some(cap) && aum_spec(q) > cap {
            Err(ContractError::DepositCapExceeded)
        } else {
            match st.active_batch {
                None => Err(ContractError::BatchStateError),
                Some(active) => if er_denominator_spec(q, active) == 0 {
                    Ok(Decimal { atomics: DECIMAL_FRACTIONAL })
                } else {
                    Ok(
                        Decimal {
                            atomics: div_atomics(aum_spec(q), er_denominator_spec(q, active)) as u128,
                        },
                    )
                },
            }
        },
    }
}

/// The protocol's assets under management.
pub fn get_aum(q: &Queried) -> (a: u128)
    requires
        fits_u128(aum_spec(*q)),
    ensures
        a == aum_spec(*q),
{
    q.oracle_aum + q.deposit_buffer + q.liquidation_btc_balance
}

/// The circulating maxBTC supply.
pub fn query_maxbtc_supply(q: &Queried) -> (s: u128)
    requires
        circulating_spec(*q) >= 0,
    ensures
        s == circulating_spec(*q),
{
    q.maxbtc_supply - q.liquidation_maxbtc_balance
}

/// The exchange rate used to mint and to value withdrawals.
pub fn get_exchange_rate(st: &MinterState, cfg: &Config, q: &Queried) -> (r: Result<Decimal, ContractError>)
    requires
        !er_aborts(*st, *cfg, *q),
    ensures
        r == exchange_rate_spec(*st, *cfg, *q),
{
    if let Some(cached) = st.cached_er {
        return Ok(cached.er);
    }
    let er_numerator = get_aum(q);
    if let Some(cap) = cfg.deposits_cap {
        if er_numerator > cap {
            return Err(ContractError::DepositCapExceeded);
        }
    }
    let maxbtc_supply = query_maxbtc_supply(q);
    let active_batch = match st.active_batch {
        Some(b) => b,
        None => return Err(ContractError::BatchStateError),
    };
    let er_denominator = maxbtc_supply + active_batch.btc_requested - q.liquidation_maxbtc_balance;
    if er_denominator == 0 {
        Ok(Decimal::one())
    } else {
        let r = Decimal::checked_from_ratio(er_numerator, er_denominator);
        Ok(r.unwrap())
    }
}

/// Refuses a deposit while the AUM exceeds the optional cap.
pub fn check_deposit_cap(cfg: &Config, q: &Queried) -> (r: Result<(), ContractError>)
    requires
        cfg.deposits_cap is Some ==> fits_u128(aum_spec(*q)),
    ensures
        r is Err <==> (cfg.deposits_cap matches Some(cap) && aum_spec(*q) > cap),
        r is Err ==> r == Err::<(), ContractError>(ContractError::DepositCapExceeded),
{
    if let Some(cap) = cfg.deposits_cap {
        if get_aum(q) > cap {
            return Err(ContractError::DepositCapExceeded);
        }
    }
    Ok(())
}

/// Whether `recipient` may receive minted maxBTC.
pub open spec fn recipient_allowed(cfg: Config, recipient: Seq<char>) -> bool {
    match cfg.deposits_allowlist {
        None => true,
        Some(list) => exists|i: int| 0 <= i < list.len() && (#[trigger] list[i])@ == recipient,
    }
}

/// Refuses a recipient that the optional allow-list does not name.
pub fn check_deposits_allowlist(cfg: &Config, recipient: &String) -> (r: Result<(), ContractError>)
    ensures
        r is Ok <==> recipient_allowed(*cfg, recipient@),
        r is Err ==> r == Err::<(), ContractError>(ContractError::Unauthorized),
{
    match &cfg.deposits_allowlist {
        None => Ok(()),
        Some(list) => {
            let mut i: usize = 0;
            while i < list.len()
                invariant
                    i <= list.len(),
                    cfg.deposits_allowlist == Some(*list),
                    forall|j: int| 0 <= j < i ==> (#[trigger] list@[j])@ != recipient@,
                decreases list.len() - i,
            {
                if list[i] == *recipient {
                    assert((list[i as int])@ == recipient@);
                    assert(cfg.deposits_allowlist.unwrap()@ == list@);
                    assert(cfg.deposits_allowlist.unwrap()[i as int]@ == recipient@);
                    assert(recipient_allowed(*cfg, recipient@));
                    return Ok(());
                }
                i = i + 1;
            }
            assert(forall|j: int| 0 <= j < list.len() ==> (#[trigger] list[j])@ != recipient@);
            Err(ContractError::Unauthorized)
        },
    }
}

// ------------------------------------------------------------------------------------------------
// Processing of the exchange-rate cache
// ------------------------------------------------------------------------------------------------

/// What processing the cache decides: the new state, the batch to store as
/// finalized, and the surplus BTC to send to the treasury.
pub struct CacheResult {
    pub state: MinterState,
    pub finalized: Option<Batch>,
    pub surplus: u128,
}

/// The tolerance below the flushed deposit within which it counts as
/// arrived, in the deposit coin's units.
pub open spec fn flush_accepted_diff(cfg: Config, buffer_dec: u128) -> int {
    to_units(mul_atomics(buffer_dec as int, cfg.deposit_buffer_tolerance.atomics as int), cfg.deposit_decimals) as int
}

/// The tolerance applied to the BTC requested by a withdrawing batch, in
/// the deposit coin's units.
pub open spec fn withdraw_accepted_diff(cfg: Config, requested_dec: u128) -> int {
    to_units(mul_atomics(requested_dec as int, cfg.collected_tolerance.atomics as int), cfg.deposit_decimals) as int
}

/// The inputs on which processing the cache aborts on a decimal overflow.
pub open spec fn process_cache_aborts(st: MinterState, cfg: Config, now: u64, q: Queried) -> bool {
    match st.cached_er {
        None => false,
        Some(c) => now <= c.timeout && match st.fsm {
            ContractState::Idle => false,
            ContractState::Flushing => match c.aum {
                None => false,
                Some(ca) => q.oracle_aum >= ca.oracle_aum && match from_atomics_spec(
                    ca.deposit_buffer,
                    cfg.deposit_decimals,
                ) {
                    None => false,
                    Some(bd) => !fits_u128(mul_atomics(bd as int, cfg.deposit_buffer_tolerance.atomics as int))
                        || cfg.deposit_decimals > 18,
                },
            },
            ContractState::Withdrawing => match st.withdrawing_batch {
                None => false,
                Some(wb) => q.collector_balance >= wb.collector_historical_balance && match from_atomics_spec(
                    wb.btc_requested,
                    cfg.deposit_decimals,
                ) {
                    None => false,
                    Some(rd) => !fits_u128(mul_atomics(rd as int, cfg.collected_tolerance.atomics as int))
                        || cfg.deposit_decimals > 18,
                },
            },
        },
    }
}

/// The state after a completed operation: idle, without cache.
pub open spec fn settled(st: MinterState) -> MinterState {
    MinterState { fsm: ContractState::Idle, cached_er: None, ..st }
}

/// What processing the cache decides. Without cache nothing changes. A
/// stale cache, or a cache while idle, is an emergency. While flushing, the
/// operation completes once the oracle AUM grew by the flushed deposit up to
/// the tolerance. While withdrawing, the batch is finalized with what the
/// collector received since the batch started (the surplus over the request
/// going to the treasury) once that is more than requested or short of it
/// by no more than the tolerance.
pub open spec fn process_cache_spec(st: MinterState, cfg: Config, now: u64, q: Queried) -> Result<(MinterState, Option<Batch>, u128), ContractError> {
    match st.cached_er {
        None => Ok((st, None, 0)),
        Some(c) => if now > c.timeout {
            Err(ContractError::ProtocolInEmergency)
        } else {
            match st.fsm {
                ContractState::Idle => Err(ContractError::ProtocolInEmergency),
                ContractState::Flushing => match c.aum {
                    None => Err(ContractError::ProtocolInEmergency),
                    Some(ca) => if q.oracle_aum < ca.oracle_aum {
                        Ok((st, None, 0))
                    } else {
                        match from_atomics_spec(ca.deposit_buffer, cfg.deposit_decimals) {
                            None => Err(ContractError::DecimalRangeExceeded),
                            Some(bd) => {
                                let flushed = q.oracle_aum - ca.oracle_aum;
                                if flushed > ca.deposit_buffer || ca.deposit_buffer - flushed
                                    < flush_accepted_diff(cfg, bd) {
                                    Ok((settled(st), None, 0))
                                } else {
                                    Ok((st, None, 0))
                                }
                            },
                        }
                    },
                },
                ContractState::Withdrawing => match st.withdrawing_batch {
                    None => Err(ContractError::ProtocolInEmergency),
                    Some(wb) => if q.collector_balance < wb.collector_historical_balance {
                        Err(ContractError::ProtocolInEmergency)
                    } else {
                        match from_atomics_spec(wb.btc_requested, cfg.deposit_decimals) {
                            None => Err(ContractError::DecimalRangeExceeded),
                            Some(rd) => {
                                let collected = q.collector_balance - wb.collector_historical_balance;
                                if collected > wb.btc_requested || wb.btc_requested - collected
                                    <= withdraw_accepted_diff(cfg, rd) {
                                    Ok(
                                        (
                                            MinterState { withdrawing_batch: None, ..settled(st) },
                                            Some(
                                                Batch {
                                                    collected_amount: collected as u128,
                                                    paid_amount: 0,
                                                    ..wb
                                                },
                                            ),
                                            if collected > wb.btc_requested {
                                                (collected - wb.btc_requested) as u128
                                            } else {
                                                0
                                            },
                                        ),
                                    )
                                } else {
                                    Ok((st, None, 0))
                                }
                            },
                        }
                    },
                },
            }
        },
    }
}

/// Whether a cache result agrees with the spec's outcome.
pub open spec fn cache_result_matches(r: CacheResult, s: (MinterState, Option<Batch>, u128)) -> bool {
    r.state == s.0 && r.finalized == s.1 && r.surplus == s.2
}

/// Drives a multi-block operation (a flush or a withdrawal batch) to its end
/// when its effect has become visible, and refuses to go on when the cache
/// is stale or inconsistent.
pub fn process_cache(st: &MinterState, cfg: &Config, now: u64, q: &Queried) -> (r: Result<CacheResult, ContractError>)
    requires
        !process_cache_aborts(*st, *cfg, now, *q),
    ensures
        match (r, process_cache_spec(*st, *cfg, now, *q)) {
            (Ok(a), Ok(b)) => cache_result_matches(a, b),
            (Err(a), Err(b)) => a == b,
            _ => false,
        },
{
    let cached_er = match st.cached_er {
        Some(c) => c,
        None => return Ok(CacheResult { state: *st, finalized: None, surplus: 0 }),
    };
    if now > cached_er.timeout {
        return Err(ContractError::ProtocolInEmergency);
    }
    match st.fsm {
        ContractState::Idle => Err(ContractError::ProtocolInEmergency),
        ContractState::Flushing => {
            let cached_aum = match cached_er.aum {
                Some(a) => a,
                None => return Err(ContractError::ProtocolInEmergency),
            };
            if q.oracle_aum < cached_aum.oracle_aum {
                return Ok(CacheResult { state: *st, finalized: None, surplus: 0 });
            }
            let successfully_flushed = q.oracle_aum - cached_aum.oracle_aum;
            let buffer_dec = match Decimal::from_atomics(cached_aum.deposit_buffer, cfg.deposit_decimals) {
                Some(d) => d,
                None => return Err(ContractError::DecimalRangeExceeded),
            };
            let accepted_diff = dec_to_amount(buffer_dec.mul(cfg.deposit_buffer_tolerance), cfg.deposit_decimals);
            if successfully_flushed > cached_aum.deposit_buffer || (cached_aum.deposit_buffer
                - successfully_flushed) < accepted_diff {
                let state = MinterState { fsm: ContractState::Idle, cached_er: None, ..*st };
                Ok(CacheResult { state, finalized: None, surplus: 0 })
            } else {
                Ok(CacheResult { state: *st, finalized: None, surplus: 0 })
            }
        },
        ContractState::Withdrawing => {
            let wb = match st.withdrawing_batch {
                Some(b) => b,
                None => return Err(ContractError::ProtocolInEmergency),
            };
            if q.collector_balance < wb.collector_historical_balance {
                return Err(ContractError::ProtocolInEmergency);
            }
            let collected = q.collector_balance - wb.collector_historical_balance;
            let requested_dec = match Decimal::from_atomics(wb.btc_requested, cfg.deposit_decimals) {
                Some(d) => d,
                None => return Err(ContractError::DecimalRangeExceeded),
            };
            let accepted_diff = dec_to_amount(requested_dec.mul(cfg.collected_tolerance), cfg.deposit_decimals);
            if collected > wb.btc_requested || wb.btc_requested - collected <= accepted_diff {
                let surplus = if collected > wb.btc_requested {
                    collected - wb.btc_requested
                } else {
                    0
                };
                let finalized = Batch { collected_amount: collected, paid_amount: 0, ..wb };
                let state = MinterState {
                    fsm: ContractState::Idle,
                    cached_er: None,
                    withdrawing_batch: None,
                    ..*st
                };
                Ok(CacheResult { state, finalized: Some(finalized), surplus })
            } else {
                Ok(CacheResult { state: *st, finalized: None, surplus: 0 })
            }
        },
    }
}

/// Whether `m` is a bank transfer of `amount` units of `denom` to `to`.
pub open spec fn is_bank_send(m: MinterMsg, to: Seq<char>, denom: Seq<char>, amount: u128) -> bool {
    match m {
        MinterMsg::BankSend { to_address, amount: c } => to_address@ == to && c.denom@ == denom
            && c.amount == amount,
        _ => false,
    }
}

/// The message sending a withdrawal surplus to the treasury, if any.
pub fn surplus_msgs(cfg: &Config, surplus: u128) -> (msgs: Vec<MinterMsg>)
    ensures
        surplus == 0 ==> msgs@.len() == 0,
        surplus > 0 ==> msgs@.len() == 1 && is_bank_send(
            msgs@[0],
            cfg.treasury_address@,
            cfg.deposit_denom@,
            surplus,
        ),
{
    let mut msgs: Vec<MinterMsg> = Vec::new();
    if surplus > 0 {
        msgs.push(
            MinterMsg::BankSend {
                to_address: cfg.treasury_address.clone(),
                amount: Coin { denom: cfg.deposit_denom.clone(), amount: surplus },
            },
        );
    }
    msgs
}

// ------------------------------------------------------------------------------------------------
// Deposit
// ------------------------------------------------------------------------------------------------

/// The deposit coin accepted from the attached funds: exactly one coin, of
/// the deposit denom, non-zero.
pub open spec fn deposit_funds_spec(cfg: Config, funds: Seq<Coin>) -> Result<u128, ContractError> {
    if funds.len() == 0 {
        Err(ContractError::NoFundsSent)
    } else if funds.len() != 1 {
        Err(ContractError::InvalidDepositAmount)
    } else if funds[0].denom@ != cfg.deposit_denom@ {
        Err(
            ContractError::InvalidDepositDenom {
                expected: cfg.deposit_denom,
                received: funds[0].denom,
            },
        )
    } else if funds[0].amount == 0 {
        Err(ContractError::InvalidDepositAmount)
    } else {
        Ok(funds[0].amount)
    }
}

/// Checks the funds attached to a deposit.
pub fn check_deposit_funds(cfg: &Config, funds: &Vec<Coin>) -> (r: Result<u128, ContractError>)
    ensures
        r == deposit_funds_spec(*cfg, funds@),
{
    if funds.len() == 0 {
        return Err(ContractError::NoFundsSent);
    }
    if funds.len() != 1 {
        return Err(ContractError::InvalidDepositAmount);
    }
    let coin = &funds[0];
    if coin.denom != cfg.deposit_denom {
        return Err(
            ContractError::InvalidDepositDenom {
                expected: cfg.deposit_denom.clone(),
                received: coin.denom.clone(),
            },
        );
    }
    if coin.amount == 0 {
        return Err(ContractError::InvalidDepositAmount);
    }
    Ok(coin.amount)
}

/// The decimal deposit after the fee, divided by the exchange rate (atomics).
pub open spec fn minted_dec_spec(cfg: Config, er: Decimal, deposit_dec: u128) -> int {
    div_atomics(
        mul_atomics(deposit_dec as int, DECIMAL_FRACTIONAL - cfg.deposit_fee.atomics),
        er.atomics as int,
    )
}

/// The inputs on which computing the minted amount aborts.
pub open spec fn mint_aborts(cfg: Config, er: Decimal, amount: u128) -> bool {
    ||| cfg.deposit_fee.atomics > DECIMAL_FRACTIONAL
    ||| match from_atomics_spec(amount, cfg.deposit_decimals) {
        None => false,
        Some(d) => {
            ||| !fits_u128(mul_atomics(d as int, DECIMAL_FRACTIONAL - cfg.deposit_fee.atomics))
            ||| er.atomics == 0
            ||| !fits_u128(minted_dec_spec(cfg, er, d))
            ||| cfg.deposit_decimals > 18
        },
    }
}

/// The maxBTC minted for a deposit of `amount`: `amount * (1 - fee) / er`,
/// in the deposit coin's decimals, rounded down at each step.
pub open spec fn minted_spec(cfg: Config, er: Decimal, amount: u128) -> Result<u128, ContractError> {
    match from_atomics_spec(amount, cfg.deposit_decimals) {
        None => Err(ContractError::InvalidDepositAmount),
        Some(d) => Ok(
            (minted_dec_spec(cfg, er, d) as nat / pow10((18 - cfg.deposit_decimals) as nat)) as u128,
        ),
    }
}

/// The maxBTC minted for a deposit of `amount` at the exchange rate `er`.
pub fn calculate_mint_amount(cfg: &Config, er: Decimal, amount: u128) -> (r: Result<u128, ContractError>)
    requires
        !mint_aborts(*cfg, er, amount),
    ensures
        r == minted_spec(*cfg, er, amount),
{
    let fee_multiplier = Decimal::one().sub(cfg.deposit_fee);
    let deposit_amount = match Decimal::from_atomics(amount, cfg.deposit_decimals) {
        Some(d) => d,
        None => return Err(ContractError::InvalidDepositAmount),
    };
    let minted_dec = deposit_amount.mul(fee_multiplier).div(er);
    let f = pow10_u128(18 - cfg.deposit_decimals);
    Ok(minted_dec.atomics() / f)
}

/// Whether the AUM exceeds the optional deposit cap.
pub open spec fn cap_exceeded(cfg: Config, q: Queried) -> bool {
    cfg.deposits_cap matches Some(cap) && aum_spec(q) > cap
}

/// The inputs on which a deposit aborts on an arithmetic overflow.
pub open spec fn deposit_aborts(
    st: MinterState,
    cfg: Config,
    now: u64,
    q: Queried,
    funds: Seq<Coin>,
    recipient: Seq<char>,
    recipient_valid: bool,
) -> bool {
    !cfg.paused && {
        ||| (cfg.deposits_cap is Some && !fits_u128(aum_spec(q)))
        ||| (!cap_exceeded(cfg, q) && recipient_valid && recipient_allowed(cfg, recipient) && {
            ||| process_cache_aborts(st, cfg, now, q)
            ||| match process_cache_spec(st, cfg, now, q) {
                Err(_) => false,
                Ok(c) => deposit_funds_spec(cfg, funds) is Ok && {
                    ||| er_aborts(c.0, cfg, q)
                    ||| match exchange_rate_spec(c.0, cfg, q) {
                        Err(_) => false,
                        Ok(er) => mint_aborts(cfg, er, deposit_funds_spec(cfg, funds)->Ok_0),
                    }
                },
            }
        })
    }
}

/// A deposit: refused while paused, above the deposit cap, for an invalid
/// or non-allow-listed recipient; the cache is processed, the funds checked,
/// and maxBTC minted at the exchange rate after the fee. Returns the new
/// state, the batch finalized on the way, the surplus sent to the treasury
/// and the amount minted.
pub open spec fn deposit_spec(
    st: MinterState,
    cfg: Config,
    now: u64,
    q: Queried,
    funds: Seq<Coin>,
    recipient: Seq<char>,
    recipient_valid: bool,
) -> Result<(MinterState, Option<Batch>, u128, u128), ContractError> {
    if cfg.paused {
        Err(ContractError::ContractPaused)
    } else if cap_exceeded(cfg, q) {
        Err(ContractError::DepositCapExceeded)
    } else if !recipient_valid {
        Err(ContractError::InvalidAddress)
    } else if !recipient_allowed(cfg, recipient) {
        Err(ContractError::Unauthorized)
    } else {
        match process_cache_spec(st, cfg, now, q) {
            Err(e) => Err(e),
            Ok(c) => match deposit_funds_spec(cfg, funds) {
                Err(e) => Err(e),
                Ok(amount) => match exchange_rate_spec(c.0, cfg, q) {
                    Err(e) => Err(e),
                    Ok(er) => match minted_spec(cfg, er, amount) {
                        Err(e) => Err(e),
                        Ok(m) => Ok((c.0, c.1, c.2, m)),
                    },
                },
            },
        }
    }
}

/// What a handler decided: the new state, the batch to store as finalized,
/// the messages to send, and the amount the handler reports.
pub struct HandlerResult {
    pub state: MinterState,
    pub finalized: Option<Batch>,
    pub msgs: Vec<MinterMsg>,
    pub amount: u128,
}

/// Handles a deposit of `funds` minting maxBTC to `recipient`.
/// `recipient_valid` tells whether the recipient is a valid address.
pub fn execute_deposit(
    st: &MinterState,
    cfg: &Config,
    now: u64,
    q: &Queried,
    funds: &Vec<Coin>,
    recipient: &String,
    recipient_valid: bool,
) -> (r: Result<HandlerResult, ContractError>)
    requires
        !deposit_aborts(*st, *cfg, now, *q, funds@, recipient@, recipient_valid),
    ensures
        match (r, deposit_spec(*st, *cfg, now, *q, funds@, recipient@, recipient_valid)) {
            (Ok(a), Ok(b)) => {
                &&& a.state == b.0
                &&& a.finalized == b.1
                &&& a.amount == b.3
                &&& a.msgs@.len() == (if b.2 > 0 { 2int } else { 1int })
                &&& (b.2 > 0 ==> is_bank_send(a.msgs@[0], cfg.treasury_address@, cfg.deposit_denom@, b.2))
                &&& is_mint(a.msgs@.last(), recipient@, cfg.maxbtc_denom@, b.3)
            },
            (Err(a), Err(b)) => a == b,
            _ => false,
        },
{
    if cfg.paused {
        return Err(ContractError::ContractPaused);
    }
    check_deposit_cap(cfg, q)?;
    if !recipient_valid {
        return Err(ContractError::InvalidAddress);
    }
    check_deposits_allowlist(cfg, recipient)?;
    let cache = process_cache(st, cfg, now, q)?;
    let mut msgs = surplus_msgs(cfg, cache.surplus);
    let amount = check_deposit_funds(cfg, funds)?;
    let er = get_exchange_rate(&cache.state, cfg, q)?;
    let minted = calculate_mint_amount(cfg, er, amount)?;
    msgs.push(
        MinterMsg::TokenMint {
            amount: Coin { denom: cfg.maxbtc_denom.clone(), amount: minted },
            mint_to_address: recipient.clone(),
        },
    );
    Ok(HandlerResult { state: cache.state, finalized: cache.finalized, msgs, amount: minted })
}

/// Whether `m` mints `amount` units of `denom` to `to`.
pub open spec fn is_mint(m: MinterMsg, to: Seq<char>, denom: Seq<char>, amount: u128) -> bool {
    match m {
        MinterMsg::TokenMint { amount: c, mint_to_address } => mint_to_address@ == to && c.denom@
            == denom && c.amount == amount,
        _ => false,
    }
}

// ------------------------------------------------------------------------------------------------
// Deposit flush
// ------------------------------------------------------------------------------------------------

/// How a flush request ended.
#[derive(Clone, Copy, Debug, PartialEq, Eq, Structural)]
pub enum FlushStatus {
    /// The flush period has not elapsed since the last flush.
    NotEnoughTimeElapsed,
    /// There was nothing to flush; the flush period starts again.
    ZeroOutstandingDeposits,
    /// The deposits were flushed.
    Flushed,
}

/// The amounts a completed flush moves.
#[derive(Clone, Copy, Debug, PartialEq, Eq, Structural)]
pub struct FlushAmounts {
    /// The liquidation buffer the protocol aims for.
    pub required_buffer: u128,
    /// Sent from the deposits to the liquidation buffer.
    pub to_liquidation: u128,
    /// Requested back from the liquidation buffer.
    pub clawback: u128,
    /// Sent to the deposit pump.
    pub to_pump: u128,
}

/// The buffer the protocol aims for: the oracle AUM (as a decimal) times the
/// configured share, in the deposit coin's units, rounded down.
pub open spec fn required_buffer_spec(cfg: Config, oracle_dec: u128) -> int {
    to_units(mul_atomics(oracle_dec as int, cfg.liquidation_buffer_share.atomics as int), cfg.deposit_decimals) as int
}

/// How the deposit buffer is split: the liquidation buffer is topped up to
/// the required amount from the deposits (at most all of them), or the
/// excess it holds is clawed back (to be flushed on a later flush); what
/// remains of the deposits goes to the pump.
pub open spec fn flush_amounts_spec(q: Queried, required: u128) -> FlushAmounts {
    if q.liquidation_maxbtc_balance < required {
        let want = required - q.liquidation_maxbtc_balance;
        let send = if want > q.deposit_buffer {
            q.deposit_buffer as int
        } else {
            want
        };
        FlushAmounts {
            required_buffer: required,
            to_liquidation: send as u128,
            clawback: 0,
            to_pump: (q.deposit_buffer - send) as u128,
        }
    } else {
        let recv = q.liquidation_maxbtc_balance - required;
        FlushAmounts {
            required_buffer: required,
            to_liquidation: 0,
            clawback: recv as u128,
            to_pump: q.deposit_buffer,
        }
    }
}

/// The inputs on which a flush aborts on an arithmetic overflow.
pub open spec fn flush_aborts(st: MinterState, cfg: Config, now: u64, q: Queried) -> bool {
    !cfg.paused && {
        ||| process_cache_aborts(st, cfg, now, q)
        ||| match process_cache_spec(st, cfg, now, q) {
            Err(_) => false,
            Ok(c) => {
                ||| c.0.last_deposit_flush_time + cfg.deposit_flush_period > u64::MAX
                ||| (now >= c.0.last_deposit_flush_time + cfg.deposit_flush_period
                    && q.deposit_buffer != 0 && allowed_transition(c.0.fsm, ContractState::Flushing)
                    && match from_atomics_spec(q.oracle_aum, cfg.deposit_decimals) {
                    None => false,
                    Some(od) => {
                        ||| !fits_u128(mul_atomics(od as int, cfg.liquidation_buffer_share.atomics as int))
                        ||| cfg.deposit_decimals > 18
                        ||| er_aborts(MinterState { fsm: ContractState::Flushing, ..c.0 }, cfg, q)
                        ||| (exchange_rate_spec(MinterState { fsm: ContractState::Flushing, ..c.0 }, cfg, q) is Ok
                            && now + cfg.cached_er_ttl > u64::MAX)
                    },
                })
            },
        }
    }
}

/// A deposit flush. After the cache is processed: nothing happens before
/// the flush period has elapsed; with no deposits the period restarts;
/// otherwise the machine moves to `Flushing`, the flush time is recorded,
/// the exchange rate and the AUM figures are cached, and the deposits are
/// split between the liquidation buffer and the pump.
pub open spec fn flush_spec(st: MinterState, cfg: Config, now: u64, q: Queried) -> Result<(MinterState, Option<Batch>, u128, FlushStatus, FlushAmounts), ContractError> {
    if cfg.paused {
        Err(ContractError::ContractPaused)
    } else {
        match process_cache_spec(st, cfg, now, q) {
            Err(e) => Err(e),
            Ok(c) => if now < c.0.last_deposit_flush_time + cfg.deposit_flush_period {
                Ok((c.0, c.1, c.2, FlushStatus::NotEnoughTimeElapsed, arbitrary()))
            } else if q.deposit_buffer == 0 {
                Ok(
                    (
                        MinterState { last_deposit_flush_time: now, ..c.0 },
                        c.1,
                        c.2,
                        FlushStatus::ZeroOutstandingDeposits,
                        arbitrary(),
                    ),
                )
            } else if !allowed_transition(c.0.fsm, ContractState::Flushing) {
                Err(ContractError::InvalidTransition { from: c.0.fsm, to: ContractState::Flushing })
            } else {
                match from_atomics_spec(q.oracle_aum, cfg.deposit_decimals) {
                    None => Err(ContractError::DecimalRangeExceeded),
                    Some(od) => {
                        let s3 = MinterState { fsm: ContractState::Flushing, ..c.0 };
                        match exchange_rate_spec(s3, cfg, q) {
                            Err(e) => Err(e),
                            Ok(er) => Ok(
                                (
                                    MinterState {
                                        last_deposit_flush_time: now,
                                        cached_er: Some(
                                            CachedER {
                                                er,
                                                timeout: (now + cfg.cached_er_ttl) as u64,
                                                aum: Some(
                                                    CachedAUM {
                                                        oracle_aum: q.oracle_aum,
                                                        deposit_buffer: q.deposit_buffer,
                                                    },
                                                ),
                                            },
                                        ),
                                        ..s3
                                    },
                                    c.1,
                                    c.2,
                                    FlushStatus::Flushed,
                                    flush_amounts_spec(q, required_buffer_spec(cfg, od) as u128),
                                ),
                            ),
                        }
                    },
                }
            },
        }
    }
}

/// What a flush decided.
pub struct FlushResult {
    pub state: MinterState,
    pub finalized: Option<Batch>,
    pub msgs: Vec<MinterMsg>,
    pub status: FlushStatus,
    pub amounts: FlushAmounts,
}

/// Whether `m` asks the contract `to` to send back `amount` units of `denom`.
pub open spec fn is_clawback(m: MinterMsg, to: Seq<char>, denom: Seq<char>, amount: u128) -> bool {
    match m {
        MinterMsg::ClawBack { contract_addr, amount: c } => contract_addr@ == to && c.denom@ == denom
            && c.amount == amount,
        _ => false,
    }
}

/// The messages of a completed flush, after those of the cache.
pub open spec fn flush_msgs_ok(msgs: Seq<MinterMsg>, start: int, cfg: Config, a: FlushAmounts) -> bool {
    let i1 = start;
    let i2 = if a.to_liquidation > 0 || a.clawback > 0 {
        start + 1
    } else {
        start
    };
    &&& (a.to_liquidation > 0 ==> is_bank_send(
        msgs[i1],
        cfg.liquidation_buffer_contract@,
        cfg.deposit_denom@,
        a.to_liquidation,
    ))
    &&& (a.clawback > 0 ==> is_clawback(
        msgs[i1],
        cfg.liquidation_buffer_contract@,
        cfg.deposit_denom@,
        a.clawback,
    ))
    &&& (a.to_pump > 0 ==> is_bank_send(
        msgs[i2],
        cfg.deposit_pump_contract@,
        cfg.deposit_denom@,
        a.to_pump,
    ))
    &&& msgs.len() == i2 + (if a.to_pump > 0 {
        1int
    } else {
        0int
    })
}

/// Handles a permissionless deposit flush.
pub fn execute_flush_deposits(st: &MinterState, cfg: &Config, now: u64, q: &Queried) -> (r: Result<FlushResult, ContractError>)
    requires
        !flush_aborts(*st, *cfg, now, *q),
    ensures
        match (r, flush_spec(*st, *cfg, now, *q)) {
            (Ok(a), Ok(b)) => {
                &&& a.state == b.0
                &&& a.finalized == b.1
                &&& a.status == b.3
                &&& (b.3 == FlushStatus::ZeroOutstandingDeposits ==> a.msgs@.len() == 0)
                &&& (b.3 != FlushStatus::ZeroOutstandingDeposits ==> {
                    &&& (b.2 > 0 ==> is_bank_send(a.msgs@[0], cfg.treasury_address@, cfg.deposit_denom@, b.2))
                    &&& (b.3 == FlushStatus::NotEnoughTimeElapsed ==> a.msgs@.len() == (if b.2 > 0 { 1int } else { 0int }))
                })
                &&& (b.3 == FlushStatus::Flushed ==> a.amounts == b.4 && flush_msgs_ok(
                    a.msgs@,
                    if b.2 > 0 { 1int } else { 0int },
                    *cfg,
                    b.4,
                ))
            },
            (Err(a), Err(b)) => a == b,
            _ => false,
        },
{
    if cfg.paused {
        return Err(ContractError::ContractPaused);
    }
    let cache = process_cache(st, cfg, now, q)?;
    let mut msgs = surplus_msgs(cfg, cache.surplus);
    let state = cache.state;
    let zero = FlushAmounts { required_buffer: 0, to_liquidation: 0, clawback: 0, to_pump: 0 };
    if now < state.last_deposit_flush_time + cfg.deposit_flush_period {
        return Ok(
            FlushResult {
                state,
                finalized: cache.finalized,
                msgs,
                status: FlushStatus::NotEnoughTimeElapsed,
                amounts: zero,
            },
        );
    }
    if q.deposit_buffer == 0 {
        return Ok(
            FlushResult {
                state: MinterState { last_deposit_flush_time: now, ..state },
                finalized: cache.finalized,
                msgs: Vec::new(),
                status: FlushStatus::ZeroOutstandingDeposits,
                amounts: zero,
            },
        );
    }
    let fsm = go_to(state.fsm, ContractState::Flushing)?;
    let state = MinterState { fsm, ..state };
    let oracle_dec = match Decimal::from_atomics(q.oracle_aum, cfg.deposit_decimals) {
        Some(d) => d,
        None => return Err(ContractError::DecimalRangeExceeded),
    };
    let required_buffer = dec_to_amount(oracle_dec.mul(cfg.liquidation_buffer_share), cfg.deposit_decimals);
    let er = get_exchange_rate(&state, cfg, q)?;
    let cached = CachedER {
        er,
        timeout: now + cfg.cached_er_ttl,
        aum: Some(CachedAUM { oracle_aum: q.oracle_aum, deposit_buffer: q.deposit_buffer }),
    };
    let state = MinterState { cached_er: Some(cached), last_deposit_flush_time: now, ..state };
    let ghost start = msgs@.len();
    let mut deposit_buffer = q.deposit_buffer;
    let mut to_liquidation: u128 = 0;
    let mut clawback: u128 = 0;
    if q.liquidation_maxbtc_balance < required_buffer {
        let mut to_send = required_buffer - q.liquidation_maxbtc_balance;
        if to_send > deposit_buffer {
            to_send = deposit_buffer;
        }
        msgs.push(
            MinterMsg::BankSend {
                to_address: cfg.liquidation_buffer_contract.clone(),
                amount: Coin { denom: cfg.deposit_denom.clone(), amount: to_send },
            },
        );
        deposit_buffer = deposit_buffer - to_send;
        to_liquidation = to_send;
    } else {
        let to_recv = q.liquidation_maxbtc_balance - required_buffer;
        if to_recv > 0 {
            msgs.push(
                MinterMsg::ClawBack {
                    contract_addr: cfg.liquidation_buffer_contract.clone(),
                    amount: Coin { denom: cfg.deposit_denom.clone(), amount: to_recv },
                },
            );
        }
        clawback = to_recv;
    }
    if deposit_buffer != 0 {
        msgs.push(
            MinterMsg::BankSend {
                to_address: cfg.deposit_pump_contract.clone(),
                amount: Coin { denom: cfg.deposit_denom.clone(), amount: deposit_buffer },
            },
        );
    }
    let amounts = FlushAmounts {
        required_buffer,
        to_liquidation,
        clawback,
        to_pump: deposit_buffer,
    };
    Ok(
        FlushResult {
            state,
            finalized: cache.finalized,
            msgs,
            status: FlushStatus::Flushed,
            amounts,
        },
    )
}

// ------------------------------------------------------------------------------------------------
// Withdrawal request
// ------------------------------------------------------------------------------------------------

/// The maxBTC accepted for a withdrawal from the attached funds: exactly
/// one coin, of the full maxBTC denom of this contract, non-zero.
pub open spec fn withdraw_funds_spec(cfg: Config, contract_addr: Seq<char>, funds: Seq<Coin>) -> Result<u128, ContractError> {
    if funds.len() == 0 {
        Err(ContractError::NoFundsSent)
    } else if funds.len() != 1 {
        Err(ContractError::InvalidDepositAmount)
    } else if funds[0].denom@ != full_denom_spec(contract_addr, cfg.maxbtc_denom@) {
        Err(
            ContractError::InvalidDepositDenom {
                expected: cfg.deposit_denom,
                received: funds[0].denom,
            },
        )
    } else if funds[0].amount == 0 {
        Err(ContractError::InvalidDepositAmount)
    } else {
        Ok(funds[0].amount)
    }
}

/// The inputs on which a withdrawal request aborts on an overflow.
pub open spec fn withdraw_aborts(st: MinterState, cfg: Config, now: u64, q: Queried, contract_addr: Seq<char>, funds: Seq<Coin>) -> bool {
    !cfg.paused && {
        ||| process_cache_aborts(st, cfg, now, q)
        ||| match process_cache_spec(st, cfg, now, q) {
            Err(_) => false,
            Ok(c) => match (withdraw_funds_spec(cfg, contract_addr, funds), c.0.active_batch) {
                (Ok(a), Some(b)) => b.maxbtc_burned + a > u128::MAX,
                _ => false,
            },
        }
    }
}

/// A withdrawal request. After the cache is processed, the attached maxBTC
/// is burned, added to the active batch, and as many redemption tokens of
/// that batch are minted to the sender.
pub open spec fn withdraw_spec(st: MinterState, cfg: Config, now: u64, q: Queried, contract_addr: Seq<char>, funds: Seq<Coin>) -> Result<(MinterState, Option<Batch>, u128, u128), ContractError> {
    if cfg.paused {
        Err(ContractError::ContractPaused)
    } else {
        match process_cache_spec(st, cfg, now, q) {
            Err(e) => Err(e),
            Ok(c) => match withdraw_funds_spec(cfg, contract_addr, funds) {
                Err(e) => Err(e),
                Ok(a) => match c.0.active_batch {
                    None => Err(ContractError::BatchStateError),
                    Some(b) => Ok(
                        (
                            MinterState {
                                active_batch: Some(
                                    Batch { maxbtc_burned: (b.maxbtc_burned + a) as u128, ..b },
                                ),
                                ..c.0
                            },
                            c.1,
                            c.2,
                            a,
                        ),
                    ),
                },
            },
        }
    }
}

/// Whether `m` burns `amount` units of `denom` from `from`.
pub open spec fn is_burn(m: MinterMsg, from: Seq<char>, denom: Seq<char>, amount: u128) -> bool {
    match m {
        MinterMsg::TokenBurn { amount: c, burn_from_address } => burn_from_address@ == from
            && c.denom@ == denom && c.amount == amount,
        _ => false,
    }
}

/// Handles a withdrawal request: `funds` must be the maxBTC to burn.
pub fn execute_withdraw(
    st: &MinterState,
    cfg: &Config,
    now: u64,
    q: &Queried,
    contract_addr: &String,
    sender: &String,
    funds: &Vec<Coin>,
) -> (r: Result<HandlerResult, ContractError>)
    requires
        !withdraw_aborts(*st, *cfg, now, *q, contract_addr@, funds@),
    ensures
        match (r, withdraw_spec(*st, *cfg, now, *q, contract_addr@, funds@)) {
            (Ok(a), Ok(b)) => {
                let k = if b.2 > 0 { 1int } else { 0int };
                &&& a.state == b.0
                &&& a.finalized == b.1
                &&& a.amount == b.3
                &&& a.msgs@.len() == k + 2
                &&& (b.2 > 0 ==> is_bank_send(a.msgs@[0], cfg.treasury_address@, cfg.deposit_denom@, b.2))
                &&& is_burn(a.msgs@[k], sender@, full_denom_spec(contract_addr@, cfg.maxbtc_denom@), b.3)
                &&& is_mint(
                    a.msgs@[k + 1],
                    sender@,
                    "redemption/batch/"@ + decimal_string(b.0.active_batch.unwrap().batch_id as nat),
                    b.3,
                )
            },
            (Err(a), Err(b)) => a == b,
            _ => false,
        },
{
    if cfg.paused {
        return Err(ContractError::ContractPaused);
    }
    let cache = process_cache(st, cfg, now, q)?;
    let mut msgs = surplus_msgs(cfg, cache.surplus);
    if funds.len() == 0 {
        return Err(ContractError::NoFundsSent);
    }
    if funds.len() != 1 {
        return Err(ContractError::InvalidDepositAmount);
    }
    let coin = &funds[0];
    let maxbtc_denom = cfg.get_maxbtc_denom(contract_addr.clone());
    if coin.denom != maxbtc_denom {
        return Err(
            ContractError::InvalidDepositDenom {
                expected: cfg.deposit_denom.clone(),
                received: coin.denom.clone(),
            },
        );
    }
    if coin.amount == 0 {
        return Err(ContractError::InvalidDepositAmount);
    }
    msgs.push(
        MinterMsg::TokenBurn {
            amount: Coin { denom: coin.denom.clone(), amount: coin.amount },
            burn_from_address: sender.clone(),
        },
    );
    let active = match cache.state.active_batch {
        Some(b) => b,
        None => return Err(ContractError::BatchStateError),
    };
    let active = Batch { maxbtc_burned: active.maxbtc_burned + coin.amount, ..active };
    let state = MinterState { active_batch: Some(active), ..cache.state };
    msgs.push(
        MinterMsg::TokenMint {
            amount: Coin { denom: redemption_subdenom(active.batch_id), amount: coin.amount },
            mint_to_address: sender.clone(),
        },
    );
    Ok(HandlerResult { state, finalized: cache.finalized, msgs, amount: coin.amount })
}

// ------------------------------------------------------------------------------------------------
// Active batch → withdrawing
// ------------------------------------------------------------------------------------------------

/// How processing the active batch ended.
#[derive(Clone, Copy, Debug, PartialEq, Eq, Structural)]
pub enum ProcessBatchStatus {
    /// Nobody asked to withdraw; the batch period restarts.
    NoWithdrawRequestsFound,
    /// The batch moved to withdrawing and a new active batch began.
    Withdrawing,
}

/// The inputs on which processing the active batch aborts on an overflow.
pub open spec fn process_batch_aborts(st: MinterState, cfg: Config, now: u64, q: Queried, redemption_supply: u128) -> bool {
    !cfg.paused && {
        ||| process_cache_aborts(st, cfg, now, q)
        ||| match process_cache_spec(st, cfg, now, q) {
            Err(_) => false,
            Ok(c) => {
                ||| c.0.active_batch_start_time + cfg.batch_active_duration > u64::MAX
                ||| (now >= c.0.active_batch_start_time + cfg.batch_active_duration
                    && c.0.active_batch is Some && redemption_supply != 0 && allowed_transition(
                    c.0.fsm,
                    ContractState::Withdrawing,
                ) && {
                    let s3 = MinterState { fsm: ContractState::Withdrawing, ..c.0 };
                    ||| er_aborts(s3, cfg, q)
                    ||| match exchange_rate_spec(s3, cfg, q) {
                        Err(_) => false,
                        Ok(er) => match from_atomics_spec(redemption_supply, cfg.deposit_decimals) {
                            None => false,
                            Some(sd) => {
                                ||| !fits_u128(mul_atomics(er.atomics as int, sd as int))
                                ||| cfg.deposit_decimals > 18
                                ||| c.0.batch_id_counter + 1 > u64::MAX
                                ||| now + cfg.cached_er_ttl > u64::MAX
                            },
                        },
                    }
                })
            },
        }
    }
}

/// Moving the active batch to withdrawing once its period is over. After the
/// cache is processed: refused before the period ends; with no redemption
/// tokens outstanding the period restarts; otherwise the batch becomes the
/// withdrawing batch, requesting its redemption supply times the exchange
/// rate (in the deposit coin's units, rounded down), the collector balance
/// is recorded, a new active batch begins with nothing burned, and the
/// exchange rate is cached.
pub open spec fn process_batch_spec(st: MinterState, cfg: Config, now: u64, q: Queried, redemption_supply: u128) -> Result<(MinterState, Option<Batch>, u128, ProcessBatchStatus), ContractError> {
    if cfg.paused {
        Err(ContractError::ContractPaused)
    } else {
        match process_cache_spec(st, cfg, now, q) {
            Err(e) => Err(e),
            Ok(c) => if now < c.0.active_batch_start_time + cfg.batch_active_duration {
                Err(ContractError::CannotProcessActiveBatchYet)
            } else {
                match c.0.active_batch {
                    None => Err(ContractError::BatchStateError),
                    Some(active) => if redemption_supply == 0 {
                        Ok(
                            (
                                MinterState { active_batch_start_time: now, ..c.0 },
                                c.1,
                                c.2,
                                ProcessBatchStatus::NoWithdrawRequestsFound,
                            ),
                        )
                    } else if !allowed_transition(c.0.fsm, ContractState::Withdrawing) {
                        Err(
                            ContractError::InvalidTransition {
                                from: c.0.fsm,
                                to: ContractState::Withdrawing,
                            },
                        )
                    } else {
                        let s3 = MinterState { fsm: ContractState::Withdrawing, ..c.0 };
                        match exchange_rate_spec(s3, cfg, q) {
                            Err(e) => Err(e),
                            Ok(er) => match from_atomics_spec(redemption_supply, cfg.deposit_decimals) {
                                None => Err(ContractError::DecimalRangeExceeded),
                                Some(sd) => {
                                    let withdrawing = Batch {
                                        batch_id: active.batch_id,
                                        btc_requested: to_units(mul_atomics(er.atomics as int, sd as int), cfg.deposit_decimals),
                                        maxbtc_burned: active.maxbtc_burned,
                                        collected_amount: 0,
                                        paid_amount: 0,
                                        collector_historical_balance: q.collector_balance,
                                    };
                                    let new_id = (c.0.batch_id_counter + 1) as u64;
                                    Ok(
                                        (
                                            MinterState {
                                                withdrawing_batch: Some(withdrawing),
                                                active_batch: Some(
                                                    Batch {
                                                        batch_id: new_id,
                                                        btc_requested: 0,
                                                        maxbtc_burned: 0,
                                                        collected_amount: 0,
                                                        paid_amount: 0,
                                                        collector_historical_balance: 0,
                                                    },
                                                ),
                                                batch_id_counter: new_id,
                                                active_batch_start_time: now,
                                                cached_er: Some(
                                                    CachedER {
                                                        er,
                                                        timeout: (now + cfg.cached_er_ttl) as u64,
                                                        aum: None,
                                                    },
                                                ),
                                                ..s3
                                            },
                                            c.1,
                                            c.2,
                                            ProcessBatchStatus::Withdrawing,
                                        ),
                                    )
                                },
                            },
                        }
                    },
                }
            },
        }
    }
}

/// What processing the active batch decided.
pub struct ProcessBatchResult {
    pub state: MinterState,
    pub finalized: Option<Batch>,
    pub msgs: Vec<MinterMsg>,
    pub status: ProcessBatchStatus,
}

/// Handles the permissionless request to move the active batch to
/// withdrawing; `redemption_supply` is the bank supply of the active
/// batch's redemption token (after the cache is processed).
pub fn execute_process_active_batch(
    st: &MinterState,
    cfg: &Config,
    now: u64,
    q: &Queried,
    redemption_supply: u128,
) -> (r: Result<ProcessBatchResult, ContractError>)
    requires
        !process_batch_aborts(*st, *cfg, now, *q, redemption_supply),
    ensures
        match (r, process_batch_spec(*st, *cfg, now, *q, redemption_supply)) {
            (Ok(a), Ok(b)) => {
                &&& a.state == b.0
                &&& a.finalized == b.1
                &&& a.status == b.3
                &&& a.msgs@.len() == (if b.2 > 0 { 1int } else { 0int })
                &&& (b.2 > 0 ==> is_bank_send(a.msgs@[0], cfg.treasury_address@, cfg.deposit_denom@, b.2))
            },
            (Err(a), Err(b)) => a == b,
            _ => false,
        },
        r is Ok && r->Ok_0.status == ProcessBatchStatus::Withdrawing && cfg.deposit_decimals <= 18 ==> {
            let requested = r->Ok_0.state.withdrawing_batch.unwrap().btc_requested;
            let er = r->Ok_0.state.cached_er.unwrap().er;
            &&& requested * DECIMAL_FRACTIONAL <= er.atomics * redemption_supply
            &&& er.atomics * redemption_supply < (requested + 1) * DECIMAL_FRACTIONAL
        },
{
    if cfg.paused {
        return Err(ContractError::ContractPaused);
    }
    let cache = process_cache(st, cfg, now, q)?;
    let msgs = surplus_msgs(cfg, cache.surplus);
    let state = cache.state;
    if now < state.active_batch_start_time + cfg.batch_active_duration {
        return Err(ContractError::CannotProcessActiveBatchYet);
    }
    let active = match state.active_batch {
        Some(b) => b,
        None => return Err(ContractError::BatchStateError),
    };
    if redemption_supply == 0 {
        return Ok(
            ProcessBatchResult {
                state: MinterState { active_batch_start_time: now, ..state },
                finalized: cache.finalized,
                msgs,
                status: ProcessBatchStatus::NoWithdrawRequestsFound,
            },
        );
    }
    let fsm = go_to(state.fsm, ContractState::Withdrawing)?;
    let state = MinterState { fsm, ..state };
    let er = get_exchange_rate(&state, cfg, q)?;
    let supply_dec = match Decimal::from_atomics(redemption_supply, cfg.deposit_decimals) {
        Some(d) => d,
        None => return Err(ContractError::DecimalRangeExceeded),
    };
    let btc_requested = dec_to_amount(er.mul(supply_dec), cfg.deposit_decimals);
    let withdrawing = Batch {
        batch_id: active.batch_id,
        btc_requested,
        maxbtc_burned: active.maxbtc_burned,
        collected_amount: 0,
        paid_amount: 0,
        collector_historical_balance: q.collector_balance,
    };
    let new_id = state.batch_id_counter + 1;
    let new_active = Batch {
        batch_id: new_id,
        btc_requested: 0,
        maxbtc_burned: 0,
        collected_amount: 0,
        paid_amount: 0,
        collector_historical_balance: 0,
    };
    let state = MinterState {
        withdrawing_batch: Some(withdrawing),
        active_batch: Some(new_active),
        batch_id_counter: new_id,
        active_batch_start_time: now,
        cached_er: Some(CachedER { er, timeout: now + cfg.cached_er_ttl, aum: None }),
        ..state
    };
    proof {
        assert(process_batch_spec(*st, *cfg, now, *q, redemption_supply) == Ok::<
            (MinterState, Option<Batch>, u128, ProcessBatchStatus),
            ContractError,
        >((state, cache.finalized, cache.surplus, ProcessBatchStatus::Withdrawing)));
        if cfg.deposit_decimals <= 18 {
            crate::minter_laws::law_withdrawal_requests_supply_times_rate(*st, *cfg, now, *q, redemption_supply);
        }
    }
    Ok(
        ProcessBatchResult {
            state,
            finalized: cache.finalized,
            msgs,
            status: ProcessBatchStatus::Withdrawing,
        },
    )
}

// ------------------------------------------------------------------------------------------------
// Claims
// ------------------------------------------------------------------------------------------------

/// The batch id a redemption coin names: its denom must start with this
/// contract's redemption prefix, hold exactly four '/' and end in the id;
/// its amount must be non-zero.
pub open spec fn batch_id_spec(contract_addr: Seq<char>, coin: Coin) -> Option<u64> {
    let p = redemption_prefix(contract_addr);
    if p.is_prefix_of(coin.denom@) && coin.amount != 0 && slash_count(coin.denom@) == 4 {
        parse_u64_spec(coin.denom@.skip(p.len() as int))
    } else {
        None
    }
}

/// Reads the batch id out of a redemption coin
/// `factory/{contract}/redemption/batch/{id}`.
pub fn get_batch_id_from_redemption_coin(contract_addr: &String, redemption_coin: &Coin) -> (r: Result<u64, ContractError>)
    ensures
        match batch_id_spec(contract_addr@, *redemption_coin) {
            Some(id) => r == Ok::<u64, ContractError>(id),
            None => r == Err::<u64, ContractError>(ContractError::WrongRedemptionTokenOrNoFunds),
        },
{
    let prefix = redemption_denom(contract_addr.as_str(), "");
    proof {
        reveal_strlit("");
        assert(prefix@ =~= redemption_prefix(contract_addr@));
    }
    let denom = redemption_coin.denom.as_str();
    if !starts_with(denom, prefix.as_str()) {
        return Err(ContractError::WrongRedemptionTokenOrNoFunds);
    }
    if redemption_coin.amount == 0 {
        return Err(ContractError::WrongRedemptionTokenOrNoFunds);
    }
    if count_slashes(denom) != 4 {
        return Err(ContractError::WrongRedemptionTokenOrNoFunds);
    }
    let n = denom.unicode_len();
    let m = prefix.as_str().unicode_len();
    let id_str = denom.substring_char(m, n);
    proof {
        assert(id_str@ =~= redemption_coin.denom@.skip(m as int));
    }
    match parse_u64(id_str) {
        Some(id) => Ok(id),
        None => Err(ContractError::WrongRedemptionTokenOrNoFunds),
    }
}

/// The inputs on which paying a claim aborts on an overflow.
pub open spec fn payout_aborts(cfg: Config, batch: Batch, amount: u128, supply: u128) -> bool {
    supply != 0 && {
        ||| batch.collected_amount < batch.paid_amount
        ||| (batch.collected_amount - batch.paid_amount) * amount > u128::MAX
        ||| batch.paid_amount + ((batch.collected_amount - batch.paid_amount) * amount) / (supply as int) > u128::MAX
    }
}

/// The BTC paid for `amount` redemption tokens out of a supply of `supply`:
/// the unpaid collected BTC times `amount / supply`, in the deposit coin's
/// units, rounded down.
pub open spec fn payout_spec(cfg: Config, batch: Batch, amount: u128, supply: u128) -> Result<u128, ContractError> {
    if supply == 0 {
        Err(ContractError::RedemptionSupplyMismatch)
    } else {
        Ok((((batch.collected_amount - batch.paid_amount) * amount) / (supply as int)) as u128)
    }
}

/// The BTC owed for redeeming `amount` tokens of a finalized batch.
pub fn claim_payout(cfg: &Config, batch: &Batch, amount: u128, supply: u128) -> (r: Result<u128, ContractError>)
    requires
        !payout_aborts(*cfg, *batch, amount, supply),
    ensures
        r == payout_spec(*cfg, *batch, amount, supply),
        supply == 0 ==> r == Err::<u128, ContractError>(ContractError::RedemptionSupplyMismatch),
        r matches Ok(p) ==> p * supply <= (batch.collected_amount - batch.paid_amount) * amount
            && (batch.collected_amount - batch.paid_amount) * amount < (p + 1) * supply,
{
    if supply == 0 {
        return Err(ContractError::RedemptionSupplyMismatch);
    }
    let available = batch.collected_amount - batch.paid_amount;
    proof {
        crate::minter_laws::law_payout_pro_rata(*cfg, *batch, amount, supply);
    }
    Ok((available * amount) / supply)
}

/// The inputs on which a claim aborts on an overflow.
pub open spec fn claim_aborts(
    st: MinterState,
    cfg: Config,
    now: u64,
    q: Queried,
    contract_addr: Seq<char>,
    funds: Seq<Coin>,
    stored: Option<Batch>,
    supply: u128,
) -> bool {
    !cfg.paused && {
        ||| process_cache_aborts(st, cfg, now, q)
        ||| match process_cache_spec(st, cfg, now, q) {
            Err(_) => false,
            Ok(c) => funds.len() == 1 && match batch_id_spec(contract_addr, funds[0]) {
                None => false,
                Some(id) => match claim_batch(c.1, stored, id) {
                    None => false,
                    Some(b) => {
                        ||| payout_aborts(cfg, b, funds[0].amount, supply)
                        ||| match payout_spec(cfg, b, funds[0].amount, supply) {
                            Ok(p) => b.paid_amount + p > u128::MAX,
                            Err(_) => false,
                        }
                    },
                },
            },
        }
    }
}

/// The finalized batch `id`: the one just finalized if it is that batch,
/// else the one in storage.
pub open spec fn claim_batch(just_finalized: Option<Batch>, stored: Option<Batch>, id: u64) -> Option<Batch> {
    match just_finalized {
        Some(b) => if b.batch_id == id {
            Some(b)
        } else {
            stored
        },
        None => stored,
    }
}

/// A claim. After the cache is processed, exactly one redemption coin must
/// be attached; its batch must be finalized; the unpaid collected BTC times
/// the coin's share of the redemption supply is sent to the recipient, the
/// coin burned, and the batch's paid amount raised. Returns the new state,
/// the batch finalized by the cache, the surplus, the updated claimed batch
/// and the amount paid.
pub open spec fn claim_spec(
    st: MinterState,
    cfg: Config,
    now: u64,
    q: Queried,
    contract_addr: Seq<char>,
    funds: Seq<Coin>,
    stored: Option<Batch>,
    supply: u128,
) -> Result<(MinterState, Option<Batch>, u128, Batch, u128), ContractError> {
    if cfg.paused {
        Err(ContractError::ContractPaused)
    } else {
        match process_cache_spec(st, cfg, now, q) {
            Err(e) => Err(e),
            Ok(c) => if funds.len() != 1 {
                Err(ContractError::WrongRedemptionTokenOrNoFunds)
            } else {
                match batch_id_spec(contract_addr, funds[0]) {
                    None => Err(ContractError::WrongRedemptionTokenOrNoFunds),
                    Some(id) => match claim_batch(c.1, stored, id) {
                        None => Err(ContractError::BatchNotFinalized),
                        Some(b) => match payout_spec(cfg, b, funds[0].amount, supply) {
                            Err(e) => Err(e),
                            Ok(p) => Ok(
                                (
                                    c.0,
                                    c.1,
                                    c.2,
                                    Batch { paid_amount: (b.paid_amount + p) as u128, ..b },
                                    p,
                                ),
                            ),
                        },
                    },
                }
            },
        }
    }
}

/// What a claim decided.
pub struct ClaimResult {
    pub state: MinterState,
    /// The batch finalized while processing the cache, to store first.
    pub finalized: Option<Batch>,
    /// The claimed batch with its new paid amount, to store after it.
    pub claimed: Batch,
    pub msgs: Vec<MinterMsg>,
    pub amount: u128,
}

/// Handles a claim of BTC against redemption tokens. `stored` is the
/// finalized batch that storage holds under the id the attached coin names
/// (see [`get_batch_id_from_redemption_coin`]), and `supply` the bank supply
/// of the attached coin's denom.
pub fn execute_claim(
    st: &MinterState,
    cfg: &Config,
    now: u64,
    q: &Queried,
    contract_addr: &String,
    funds: &Vec<Coin>,
    recipient: &String,
    stored: Option<Batch>,
    supply: u128,
) -> (r: Result<ClaimResult, ContractError>)
    requires
        !claim_aborts(*st, *cfg, now, *q, contract_addr@, funds@, stored, supply),
    ensures
        match (r, claim_spec(*st, *cfg, now, *q, contract_addr@, funds@, stored, supply)) {
            (Ok(a), Ok(b)) => {
                let k = if b.2 > 0 { 1int } else { 0int };
                &&& a.state == b.0
                &&& a.finalized == b.1
                &&& a.claimed == b.3
                &&& a.amount == b.4
                &&& a.msgs@.len() == k + 2
                &&& (b.2 > 0 ==> is_bank_send(a.msgs@[0], cfg.treasury_address@, cfg.deposit_denom@, b.2))
                &&& is_bank_send(a.msgs@[k], recipient@, cfg.deposit_denom@, b.4)
                &&& is_burn(a.msgs@[k + 1], contract_addr@, funds@[0].denom@, funds@[0].amount)
            },
            (Err(a), Err(b)) => a == b,
            _ => false,
        },
{
    if cfg.paused {
        return Err(ContractError::ContractPaused);
    }
    let cache = process_cache(st, cfg, now, q)?;
    let mut msgs = surplus_msgs(cfg, cache.surplus);
    if funds.len() != 1 {
        return Err(ContractError::WrongRedemptionTokenOrNoFunds);
    }
    let coin = &funds[0];
    let batch_id = get_batch_id_from_redemption_coin(contract_addr, coin)?;
    let batch = match cache.finalized {
        Some(b) => if b.batch_id == batch_id {
            Some(b)
        } else {
            stored
        },
        None => stored,
    };
    let batch = match batch {
        Some(b) => b,
        None => return Err(ContractError::BatchNotFinalized),
    };
    let user_btc = claim_payout(cfg, &batch, coin.amount, supply)?;
    msgs.push(
        MinterMsg::BankSend {
            to_address: recipient.clone(),
            amount: Coin { denom: cfg.deposit_denom.clone(), amount: user_btc },
        },
    );
    msgs.push(
        MinterMsg::TokenBurn {
            amount: Coin { denom: coin.denom.clone(), amount: coin.amount },
            burn_from_address: contract_addr.clone(),
        },
    );
    let claimed = Batch { paid_amount: batch.paid_amount + user_btc, ..batch };
    Ok(
        ClaimResult {
            state: cache.state,
            finalized: cache.finalized,
            claimed,
            msgs,
            amount: user_btc,
        },
    )
}

// ------------------------------------------------------------------------------------------------
// Instantiation and configuration
// ------------------------------------------------------------------------------------------------

/// The addresses of an allow-list, if there is one.
pub open spec fn list_view(l: Option<Vec<String>>) -> Option<Seq<Seq<char>>> {
    match l {
        Some(v) => Some(v@.map_values(|s: String| s@)),
        None => None,
    }
}

/// The addresses of an allow-list as given, if there is one.
pub open spec fn input_list_view(l: Option<Vec<AddressInput>>) -> Option<Seq<Seq<char>>> {
    match l {
        Some(v) => Some(v@.map_values(|a: AddressInput| a.address@)),
        None => None,
    }
}

/// An allow-list as given is absent or names only accepted addresses.
pub open spec fn input_list_ok(l: Option<Vec<AddressInput>>) -> bool {
    match l {
        Some(v) => all_valid(v@),
        None => true,
    }
}

fn validated_allowlist(l: &Option<Vec<AddressInput>>) -> (r: Result<Option<Vec<String>>, ContractError>)
    ensures
        r is Ok <==> input_list_ok(*l),
        r is Err ==> r == Err::<Option<Vec<String>>, ContractError>(ContractError::InvalidAddress),
        r is Ok ==> list_view(r->Ok_0) == input_list_view(*l),
{
    match l {
        None => Ok(None),
        Some(v) => match validated_list(v) {
            Some(out) => {
                assert(out@.map_values(|s: String| s@) =~= v@.map_values(|a: AddressInput| a.address@));
                Ok(Some(out))
            },
            None => Err(ContractError::InvalidAddress),
        },
    }
}

/// The changes an owner asks for; an absent field stays as it is.
#[derive(Clone, Debug, PartialEq, Eq)]
pub struct UpdateConfigMsg {
    pub paused: Option<bool>,
    pub owner: Option<AddressInput>,
    pub aum_contract: Option<AddressInput>,
    pub liquidation_contract: Option<AddressInput>,
    pub deposit_pump_contract: Option<AddressInput>,
    pub collector_contract: Option<AddressInput>,
    pub treasury_address: Option<AddressInput>,
    pub deposit_flush_period: Option<u64>,
    pub batch_active_duration: Option<u64>,
    pub batch_withdrawing_duration: Option<u64>,
    pub accepted_withdrawable_percentage: Option<Decimal>,
    pub liquidation_buffer_share: Option<Decimal>,
    pub deposit_fee: Option<Decimal>,
    pub cached_aum_tolerance: Option<Decimal>,
    pub cached_er_ttl: Option<u64>,
    /// A new cap, or `Some(None)` to lift the cap.
    pub deposits_cap: Option<Option<u128>>,
    /// A new allow-list, or `Some(None)` to drop it.
    pub deposits_allowlist: Option<Option<Vec<AddressInput>>>,
}

/// The value an optional update puts in a field.
pub open spec fn updated<T>(old: T, u: Option<T>) -> T {
    match u {
        Some(v) => v,
        None => old,
    }
}

/// Why an update is refused: the sender is not the owner, or one of the
/// addresses given is invalid.
pub open spec fn update_config_error(cfg: Config, sender: Seq<char>, u: UpdateConfigMsg) -> Option<ContractError> {
    if sender != cfg.owner@ {
        Some(ContractError::Unauthorized)
    } else if !(address_ok(u.owner) && address_ok(u.aum_contract) && address_ok(u.liquidation_contract)
        && address_ok(u.deposit_pump_contract) && address_ok(u.collector_contract)
        && address_ok(u.treasury_address) && (match u.deposits_allowlist {
        Some(l) => input_list_ok(l),
        None => true,
    })) {
        Some(ContractError::InvalidAddress)
    } else {
        None
    }
}

/// `new` is `old` with the update's fields put in.
pub open spec fn config_updated(old: Config, new: Config, u: UpdateConfigMsg) -> bool {
    &&& new.paused == updated(old.paused, u.paused)
    &&& new.owner@ == updated_address(old.owner, u.owner)
    &&& new.aum_contract@ == updated_address(old.aum_contract, u.aum_contract)
    &&& new.liquidation_buffer_contract@ == updated_address(old.liquidation_buffer_contract, u.liquidation_contract)
    &&& new.deposit_pump_contract@ == updated_address(old.deposit_pump_contract, u.deposit_pump_contract)
    &&& new.collector_contract@ == updated_address(old.collector_contract, u.collector_contract)
    &&& new.treasury_address@ == updated_address(old.treasury_address, u.treasury_address)
    &&& new.deposit_denom@ == old.deposit_denom@
    &&& new.deposit_decimals == old.deposit_decimals
    &&& new.maxbtc_denom@ == old.maxbtc_denom@
    &&& new.deposit_flush_period == updated(old.deposit_flush_period, u.deposit_flush_period)
    &&& new.batch_active_duration == updated(old.batch_active_duration, u.batch_active_duration)
    &&& new.batch_withdrawing_duration == updated(old.batch_withdrawing_duration, u.batch_withdrawing_duration)
    &&& new.collected_tolerance == updated(old.collected_tolerance, u.accepted_withdrawable_percentage)
    &&& new.liquidation_buffer_share == updated(old.liquidation_buffer_share, u.liquidation_buffer_share)
    &&& new.deposit_fee == updated(old.deposit_fee, u.deposit_fee)
    &&& new.deposit_buffer_tolerance == updated(old.deposit_buffer_tolerance, u.cached_aum_tolerance)
    &&& new.cached_er_ttl == updated(old.cached_er_ttl, u.cached_er_ttl)
    &&& new.deposits_cap == updated(old.deposits_cap, u.deposits_cap)
    &&& list_view(new.deposits_allowlist) == (match u.deposits_allowlist {
        Some(l) => input_list_view(l),
        None => list_view(old.deposits_allowlist),
    })
}

fn pick_address(field: &String, a: &Option<AddressInput>) -> (r: String)
    ensures
        r@ == updated_address(*field, *a),
{
    match a {
        Some(x) => x.address.clone(),
        None => field.clone(),
    }
}

fn pick<T: Copy>(field: T, u: Option<T>) -> (r: T)
    ensures
        r == updated(field, u),
{
    match u {
        Some(v) => v,
        None => field,
    }
}

fn copy_list(l: &Option<Vec<String>>) -> (r: Option<Vec<String>>)
    ensures
        list_view(r) == list_view(*l),
{
    match l {
        None => None,
        Some(v) => {
            let mut out: Vec<String> = Vec::new();
            let mut i: usize = 0;
            while i < v.len()
                invariant
                    i <= v@.len(),
                    out@.len() == i,
                    forall|j: int| 0 <= j < i ==> #[trigger] out@[j]@ == v@[j]@,
                decreases v@.len() - i,
            {
                out.push(v[i].clone());
                i = i + 1;
            }
            assert(out@.map_values(|s: String| s@) =~= v@.map_values(|s: String| s@));
            Some(out)
        },
    }
}

impl Config {
    /// A field-by-field copy.
    pub fn copy(&self) -> (c: Config)
        ensures
            config_updated(*self, c, no_update()),
    {
        Config {
            paused: self.paused,
            owner: self.owner.clone(),
            aum_contract: self.aum_contract.clone(),
            liquidation_buffer_contract: self.liquidation_buffer_contract.clone(),
            deposit_pump_contract: self.deposit_pump_contract.clone(),
            collector_contract: self.collector_contract.clone(),
            treasury_address: self.treasury_address.clone(),
            deposit_denom: self.deposit_denom.clone(),
            deposit_decimals: self.deposit_decimals,
            maxbtc_denom: self.maxbtc_denom.clone(),
            deposit_flush_period: self.deposit_flush_period,
            batch_active_duration: self.batch_active_duration,
            batch_withdrawing_duration: self.batch_withdrawing_duration,
            collected_tolerance: self.collected_tolerance,
            liquidation_buffer_share: self.liquidation_buffer_share,
            deposit_fee: self.deposit_fee,
            deposit_buffer_tolerance: self.deposit_buffer_tolerance,
            cached_er_ttl: self.cached_er_ttl,
            deposits_cap: self.deposits_cap,
            deposits_allowlist: copy_list(&self.deposits_allowlist),
        }
    }
}

/// The update that changes nothing.
pub open spec fn no_update() -> UpdateConfigMsg {
    UpdateConfigMsg {
        paused: None,
        owner: None,
        aum_contract: None,
        liquidation_contract: None,
        deposit_pump_contract: None,
        collector_contract: None,
        treasury_address: None,
        deposit_flush_period: None,
        batch_active_duration: None,
        batch_withdrawing_duration: None,
        accepted_withdrawable_percentage: None,
        liquidation_buffer_share: None,
        deposit_fee: None,
        cached_aum_tolerance: None,
        cached_er_ttl: None,
        deposits_cap: None,
        deposits_allowlist: None,
    }
}

/// The owner's update of the configuration: the new configuration, or why
/// the update is refused.
pub fn execute_update_config(cfg: &Config, sender: &String, u: &UpdateConfigMsg) -> (r: Result<Config, ContractError>)
    ensures
        match r {
            Ok(c) => update_config_error(*cfg, sender@, *u) is None && config_updated(*cfg, c, *u),
            Err(e) => update_config_error(*cfg, sender@, *u) == Some(e),
        },
{
    if !sender.eq(&cfg.owner) {
        return Err(ContractError::Unauthorized);
    }
    if !(address_input_ok(&u.owner) && address_input_ok(&u.aum_contract) && address_input_ok(&u.liquidation_contract)
        && address_input_ok(&u.deposit_pump_contract) && address_input_ok(&u.collector_contract)
        && address_input_ok(&u.treasury_address)) {
        return Err(ContractError::InvalidAddress);
    }
    let allowlist = match &u.deposits_allowlist {
        Some(l) => match validated_allowlist(l) {
            Ok(v) => v,
            Err(e) => return Err(e),
        },
        None => copy_list(&cfg.deposits_allowlist),
    };
    let c = Config {
        paused: pick(cfg.paused, u.paused),
        owner: pick_address(&cfg.owner, &u.owner),
        aum_contract: pick_address(&cfg.aum_contract, &u.aum_contract),
        liquidation_buffer_contract: pick_address(&cfg.liquidation_buffer_contract, &u.liquidation_contract),
        deposit_pump_contract: pick_address(&cfg.deposit_pump_contract, &u.deposit_pump_contract),
        collector_contract: pick_address(&cfg.collector_contract, &u.collector_contract),
        treasury_address: pick_address(&cfg.treasury_address, &u.treasury_address),
        deposit_denom: cfg.deposit_denom.clone(),
        deposit_decimals: cfg.deposit_decimals,
        maxbtc_denom: cfg.maxbtc_denom.clone(),
        deposit_flush_period: pick(cfg.deposit_flush_period, u.deposit_flush_period),
        batch_active_duration: pick(cfg.batch_active_duration, u.batch_active_duration),
        batch_withdrawing_duration: pick(cfg.batch_withdrawing_duration, u.batch_withdrawing_duration),
        collected_tolerance: pick(cfg.collected_tolerance, u.accepted_withdrawable_percentage),
        liquidation_buffer_share: pick(cfg.liquidation_buffer_share, u.liquidation_buffer_share),
        deposit_fee: pick(cfg.deposit_fee, u.deposit_fee),
        deposit_buffer_tolerance: pick(cfg.deposit_buffer_tolerance, u.cached_aum_tolerance),
        cached_er_ttl: pick(cfg.cached_er_ttl, u.cached_er_ttl),
        deposits_cap: pick(cfg.deposits_cap, u.deposits_cap),
        deposits_allowlist: allowlist,
    };
    Ok(c)
}

/// What the minter is instantiated with.
#[derive(Clone, Debug, PartialEq, Eq)]
pub struct InstantiateMsg {
    pub owner: AddressInput,
    pub aum_contract: AddressInput,
    pub liquidation_contract: AddressInput,
    pub deposit_pump_contract: AddressInput,
    pub collector_contract: AddressInput,
    pub treasury_address: AddressInput,
    pub deposit_denom: String,
    pub deposit_decimals: u32,
    pub maxbtc_denom: String,
    pub deposit_flush_period: u64,
    pub batch_active_duration: u64,
    pub batch_withdrawing_duration: u64,
    pub accepted_withdrawable_percentage: Decimal,
    pub liquidation_buffer_share: Decimal,
    pub deposit_fee: Decimal,
    pub cached_aum_tolerance: Decimal,
    pub cached_er_ttl: u64,
    pub deposits_cap: Option<u128>,
    pub deposits_allowlist: Option<Vec<AddressInput>>,
}

/// Every address of an instantiation message was accepted.
pub open spec fn instantiate_addresses_ok(m: InstantiateMsg) -> bool {
    m.owner.valid && m.aum_contract.valid && m.liquidation_contract.valid && m.deposit_pump_contract.valid
        && m.collector_contract.valid && m.treasury_address.valid && input_list_ok(m.deposits_allowlist)
}

/// The configuration a message sets up: unpaused, every field from the message.
pub open spec fn config_from_msg(c: Config, m: InstantiateMsg) -> bool {
    &&& !c.paused
    &&& c.owner@ == m.owner.address@
    &&& c.aum_contract@ == m.aum_contract.address@
    &&& c.liquidation_buffer_contract@ == m.liquidation_contract.address@
    &&& c.deposit_pump_contract@ == m.deposit_pump_contract.address@
    &&& c.collector_contract@ == m.collector_contract.address@
    &&& c.treasury_address@ == m.treasury_address.address@
    &&& c.deposit_denom@ == m.deposit_denom@
    &&& c.deposit_decimals == m.deposit_decimals
    &&& c.maxbtc_denom@ == m.maxbtc_denom@
    &&& c.deposit_flush_period == m.deposit_flush_period
    &&& c.batch_active_duration == m.batch_active_duration
    &&& c.batch_withdrawing_duration == m.batch_withdrawing_duration
    &&& c.collected_tolerance == m.accepted_withdrawable_percentage
    &&& c.liquidation_buffer_share == m.liquidation_buffer_share
    &&& c.deposit_fee == m.deposit_fee
    &&& c.deposit_buffer_tolerance == m.cached_aum_tolerance
    &&& c.cached_er_ttl == m.cached_er_ttl
    &&& c.deposits_cap == m.deposits_cap
    &&& list_view(c.deposits_allowlist) == input_list_view(m.deposits_allowlist)
}

/// The state right after instantiation at block time `now`: idle, batch 1
/// active and begun now, nothing cached or withdrawing.
pub open spec fn initial_state(now: u64) -> MinterState {
    MinterState {
        fsm: ContractState::Idle,
        active_batch: Some(
            Batch {
                batch_id: 1,
                btc_requested: 0,
                maxbtc_burned: 0,
                collected_amount: 0,
                paid_amount: 0,
                collector_historical_balance: 0,
            },
        ),
        withdrawing_batch: None,
        batch_id_counter: 1,
        last_deposit_flush_time: now,
        active_batch_start_time: now,
        cached_er: None,
    }
}

/// What instantiation sets up: the configuration, the first state, and the
/// messages (the creation of the maxBTC denom).
pub struct InstantiateResult {
    pub config: Config,
    pub state: MinterState,
    pub msgs: Vec<MinterMsg>,
}

/// Instantiates the minter at block time `now`; refused with
/// `InvalidAddress` when an address of the message is invalid.
pub fn instantiate(m: &InstantiateMsg, now: u64) -> (r: Result<InstantiateResult, ContractError>)
    ensures
        r is Ok <==> instantiate_addresses_ok(*m),
        r is Err ==> r->Err_0 == ContractError::InvalidAddress,
        r is Ok ==> {
            let res = r->Ok_0;
            &&& config_from_msg(res.config, *m)
            &&& res.state == initial_state(now)
            &&& state_consistent(res.state)
            &&& res.msgs@.len() == 1
            &&& res.msgs@[0] matches MinterMsg::CreateDenom { subdenom } && subdenom@ == m.maxbtc_denom@
        },
{
    if !(m.owner.valid && m.aum_contract.valid && m.liquidation_contract.valid && m.deposit_pump_contract.valid
        && m.collector_contract.valid && m.treasury_address.valid) {
        return Err(ContractError::InvalidAddress);
    }
    let allowlist = match validated_allowlist(&m.deposits_allowlist) {
        Ok(v) => v,
        Err(e) => return Err(e),
    };
    let config = Config {
        paused: false,
        owner: m.owner.address.clone(),
        aum_contract: m.aum_contract.address.clone(),
        liquidation_buffer_contract: m.liquidation_contract.address.clone(),
        deposit_pump_contract: m.deposit_pump_contract.address.clone(),
        collector_contract: m.collector_contract.address.clone(),
        treasury_address: m.treasury_address.address.clone(),
        deposit_denom: m.deposit_denom.clone(),
        deposit_decimals: m.deposit_decimals,
        maxbtc_denom: m.maxbtc_denom.clone(),
        deposit_flush_period: m.deposit_flush_period,
        batch_active_duration: m.batch_active_duration,
        batch_withdrawing_duration: m.batch_withdrawing_duration,
        collected_tolerance: m.accepted_withdrawable_percentage,
        liquidation_buffer_share: m.liquidation_buffer_share,
        deposit_fee: m.deposit_fee,
        deposit_buffer_tolerance: m.cached_aum_tolerance,
        cached_er_ttl: m.cached_er_ttl,
        deposits_cap: m.deposits_cap,
        deposits_allowlist: allowlist,
    };
    let state = MinterState {
        fsm: ContractState::Idle,
        active_batch: Some(
            Batch {
                batch_id: 1,
                btc_requested: 0,
                maxbtc_burned: 0,
                collected_amount: 0,
                paid_amount: 0,
                collector_historical_balance: 0,
            },
        ),
        withdrawing_batch: None,
        batch_id_counter: 1,
        last_deposit_flush_time: now,
        active_batch_start_time: now,
        cached_er: None,
    };
    let mut msgs: Vec<MinterMsg> = Vec::new();
    msgs.push(MinterMsg::CreateDenom { subdenom: m.maxbtc_denom.clone() });
    Ok(InstantiateResult { config, state, msgs })
}

} // verus!
