//! The maxBTC core contract: deposits mint maxBTC through the token contract
//! at the exchange rate published by the exchange-rate provider; an
//! operator-driven state machine flushes deposits to custody and settles
//! withdrawal batches.
//!
//! Storage, queries and messages are the caller's; the functions here decide
//! from the stored state and the query results.
use vstd::prelude::*;
use crate::address::{
    AddressInput, OwnershipError, address_input_ok, address_ok, assert_owner, updated_address,
};
use crate::coin::{Coin, PaymentError, must_pay, must_pay_spec, same_payment};
use crate::decimal::{
    Decimal, DECIMAL_FRACTIONAL, div_atomics, fits_u128, from_atomics_spec, mul_atomics, pow10,
    pow10_u128,
};
use crate::denom::{decimal_string, redemption_subdenom};

verus! {

/// The core contract's configuration.
#[derive(Clone, Debug, PartialEq, Eq)]
pub struct Config {
    /// When set, user-initiated actions are refused.
    pub paused: bool,
    /// The account allowed to drive the state machine.
    pub operator: String,
    /// The token contract minting maxBTC and redemption tokens.
    pub token_contract: String,
    /// The factory that instantiated the protocol.
    pub factory_contract: String,
    /// The contract forwarding flushed deposits to custody.
    pub deposit_forwarder_contract: String,
    /// Denom of user deposits.
    pub deposit_denom: String,
    /// Number of decimals of the deposit coin.
    pub deposit_decimals: u32,
    /// The fee taken from deposits, below one.
    pub deposit_cost: Decimal,
    /// Optional cap on the AUM above which deposits are refused.
    pub deposits_cap: Option<u128>,
    /// The allow-list contract.
    pub allowlist_contract: String,
    /// The exchange-rate provider.
    pub exchange_rate_provider_contract: String,
    /// Seconds after which a published exchange rate is stale.
    pub exchange_rate_stale_period: u64,
    /// The fee collector, allowed to mint fees.
    pub fee_collector_contract: String,
    /// The waitosaur observing the custody deposit.
    pub waitosaur_observer_contract: String,
    /// The waitosaur holding BTC returned from custody.
    pub waitosaur_holder_contract: String,
    /// The withdrawal manager paying out withdrawals.
    pub withdrawal_manager_contract: String,
    /// Seconds that must pass between two public deposit flushes.
    pub deposit_flush_period: u64,
}

impl Config {
    /// A field-by-field copy.
    pub fn copy(&self) -> (c: Config)
        ensures
            config_updated(*self, c, no_update()),
    {
        Config {
            paused: self.paused,
            operator: self.operator.clone(),
            token_contract: self.token_contract.clone(),
            factory_contract: self.factory_contract.clone(),
            deposit_forwarder_contract: self.deposit_forwarder_contract.clone(),
            deposit_denom: self.deposit_denom.clone(),
            deposit_decimals: self.deposit_decimals,
            deposit_cost: self.deposit_cost,
            deposits_cap: self.deposits_cap,
            allowlist_contract: self.allowlist_contract.clone(),
            exchange_rate_provider_contract: self.exchange_rate_provider_contract.clone(),
            exchange_rate_stale_period: self.exchange_rate_stale_period,
            fee_collector_contract: self.fee_collector_contract.clone(),
            waitosaur_observer_contract: self.waitosaur_observer_contract.clone(),
            waitosaur_holder_contract: self.waitosaur_holder_contract.clone(),
            withdrawal_manager_contract: self.withdrawal_manager_contract.clone(),
            deposit_flush_period: self.deposit_flush_period,
        }
    }

    /// The full denom of the redemption token of batch `batch_id` minted by
    /// the contract at `contract_addr`.
    pub fn get_redemption_denom(&self, contract_addr: String, batch_id: u64) -> (d: String)
        ensures
            d@ == crate::denom::redemption_prefix(contract_addr@) + decimal_string(batch_id as nat),
    {
        let id = crate::denom::u64_to_string(batch_id);
        crate::denom::redemption_denom(contract_addr.as_str(), id.as_str())
    }
}

/// A withdrawal batch.
#[derive(Clone, Copy, Debug, PartialEq, Eq, Structural)]
pub struct Batch {
    pub batch_id: u64,
    /// The BTC owed for the maxBTC burned, at the exchange rate of the tick.
    pub btc_requested: u128,
    /// The maxBTC burned into this batch.
    pub maxbtc_burned: u128,
    /// The BTC gathered for the batch.
    pub collected_amount: u128,
    /// The decimals of the deposit coin when the batch began.
    pub deposit_decimals: u32,
    pub collector_historical_balance: u128,
}

/// The core contract's state machine.
#[derive(Clone, Copy, Debug, PartialEq, Eq, Structural)]
pub enum ContractState {
    Idle,
    DepositNeutron,
    DepositPending,
    DepositJLP,
    WithdrawJLP,
    WithdrawPending,
    WithdrawNeutron,
}

/// The errors of the core contract.
#[derive(Clone, Debug, PartialEq, Eq)]
pub enum ContractError {
    Unauthorized,
    ContractPaused,
    NoFundsSent,
    InvalidDepositDenom { expected: String, received: String },
    InvalidMintDenom { expected: String, received: String },
    InvalidDepositAmount,
    AddressNotAllowed,
    InvalidAddress,
    Ownership(OwnershipError),
    DecimalRangeExceeded,
    OverflowError,
    DepositCapExceeded,
    DepositCostTooHigh,
    StalePeriodMustBePositive,
    ERDataStale,
    SlippageLimitExceeded { requested: u128, actual: u128 },
    FlushDepositAllowedInDepositNeutron,
    WaitosaurLocked,
    PaymentError(PaymentError),
}

/// An `Int256` held as sign and two 128-bit halves of its magnitude.
#[derive(Clone, Copy, Debug, PartialEq, Eq, Structural)]
pub struct SignedAmount {
    pub negative: bool,
    pub high: u128,
    pub low: u128,
}

impl SignedAmount {
    /// The number held.
    pub open spec fn value(self) -> int {
        let m = self.high * 0x1_0000_0000_0000_0000_0000_0000_0000_0000int + self.low;
        if self.negative {
            -m
        } else {
            m
        }
    }
}

// ------------------------------------------------------------------------------------------------
// Checks
// ------------------------------------------------------------------------------------------------

/// Whether a deposit of `deposit` would take the AUM over the optional cap.
pub open spec fn cap_exceeded(cfg: Config, aum: SignedAmount, deposit: u128) -> bool {
    cfg.deposits_cap matches Some(cap) && aum.value() + deposit > cap
}

/// Refuses a deposit of `deposit` that would take the AUM over the cap.
pub fn check_deposit_cap(cfg: &Config, aum: SignedAmount, deposit: u128) -> (r: Result<(), ContractError>)
    ensures
        r is Err <==> cap_exceeded(*cfg, aum, deposit),
        r is Err ==> r == Err::<(), ContractError>(ContractError::DepositCapExceeded),
        cfg.deposits_cap is None ==> r is Ok,
        cfg.deposits_cap matches Some(c) ==> (r is Ok <==> aum.value() + deposit <= c),
{
    let cap = match cfg.deposits_cap {
        Some(c) => c,
        None => return Ok(()),
    };
    let exceeded = if !aum.negative {
        if aum.high > 0 {
            true
        } else {
            aum.low > cap || deposit > cap - aum.low
        }
    } else {
        if aum.high > 0 {
            false
        } else {
            match cap.checked_add(aum.low) {
                Some(limit) => deposit > limit,
                None => false,
            }
        }
    };
    if exceeded {
        Err(ContractError::DepositCapExceeded)
    } else {
        Ok(())
    }
}

/// Refuses a user that is not a valid address or that the allow-list
/// contract does not allow.
pub fn check_allowlist(user_valid: bool, is_allowed: bool) -> (r: Result<(), ContractError>)
    ensures
        !user_valid ==> r == Err::<(), ContractError>(ContractError::InvalidAddress),
        user_valid && !is_allowed ==> r == Err::<(), ContractError>(ContractError::AddressNotAllowed),
        user_valid && is_allowed ==> r is Ok,
{
    if !user_valid {
        return Err(ContractError::InvalidAddress);
    }
    if !is_allowed {
        Err(ContractError::AddressNotAllowed)
    } else {
        Ok(())
    }
}

/// The exchange rate the provider published at `published_at`, refused once
/// more than the stale period has passed.
pub fn get_exchange_rate(cfg: &Config, now: u64, twaer: Decimal, published_at: u64) -> (r: Result<Decimal, ContractError>)
    requires
        published_at <= now,
    ensures
        now - published_at > cfg.exchange_rate_stale_period ==> r == Err::<Decimal, ContractError>(
            ContractError::ERDataStale,
        ),
        now - published_at <= cfg.exchange_rate_stale_period ==> r == Ok::<Decimal, ContractError>(twaer),
{
    if now - published_at > cfg.exchange_rate_stale_period {
        return Err(ContractError::ERDataStale);
    }
    Ok(twaer)
}

/// Integer amount with `decimals` fractional digits of a decimal.
pub fn dec_to_amount(dec: Decimal, decimals: u32) -> (r: u128)
    requires
        decimals <= 18,
    ensures
        r == dec.atomics as nat / pow10((18 - decimals) as nat),
{
    crate::decimal::dec_to_amount(dec, decimals)
}

/// The decimal deposit after the cost, divided by the exchange rate (atomics).
pub open spec fn minted_dec_spec(cfg: Config, er: Decimal, deposit_dec: u128) -> int {
    div_atomics(
        mul_atomics(deposit_dec as int, DECIMAL_FRACTIONAL - cfg.deposit_cost.atomics),
        er.atomics as int,
    )
}

/// The inputs on which computing the minted amount aborts.
pub open spec fn mint_aborts(cfg: Config, er: Decimal, amount: u128) -> bool {
    er.atomics != 0 && match from_atomics_spec(amount, cfg.deposit_decimals) {
        None => false,
        Some(d) => {
            ||| cfg.deposit_cost.atomics > DECIMAL_FRACTIONAL
            ||| !fits_u128(mul_atomics(d as int, DECIMAL_FRACTIONAL - cfg.deposit_cost.atomics))
            ||| !fits_u128(minted_dec_spec(cfg, er, d))
            ||| cfg.deposit_decimals > 18
        },
    }
}

/// The maxBTC minted for a deposit of `amount`: refused at a zero exchange
/// rate, else `amount * (1 - cost) / er` in the deposit coin's decimals,
/// rounded down at each step.
pub open spec fn minted_spec(cfg: Config, er: Decimal, amount: u128) -> Result<u128, ContractError> {
    if er.atomics == 0 {
        Err(ContractError::InvalidDepositAmount)
    } else {
        match from_atomics_spec(amount, cfg.deposit_decimals) {
            None => Err(ContractError::InvalidDepositAmount),
            Some(d) => Ok(
                (minted_dec_spec(cfg, er, d) as nat / pow10((18 - cfg.deposit_decimals) as nat)) as u128,
            ),
        }
    }
}

/// The maxBTC minted for a deposit of `deposit_amount_raw` at the exchange
/// rate `er` (as a deposit does and as a simulation reports).
pub fn calculate_mint_amount(cfg: &Config, er: Decimal, deposit_amount_raw: u128) -> (r: Result<u128, ContractError>)
    requires
        !mint_aborts(*cfg, er, deposit_amount_raw),
    ensures
        r == minted_spec(*cfg, er, deposit_amount_raw),
{
    if er.is_zero() {
        return Err(ContractError::InvalidDepositAmount);
    }
    let deposit_amount = match Decimal::from_atomics(deposit_amount_raw, cfg.deposit_decimals) {
        Some(d) => d,
        None => return Err(ContractError::InvalidDepositAmount),
    };
    let fee_multiplier = Decimal::one().sub(cfg.deposit_cost);
    let minted = deposit_amount.mul(fee_multiplier).div(er);
    Ok(dec_to_amount(minted, cfg.deposit_decimals))
}

// ------------------------------------------------------------------------------------------------
// State and messages
// ------------------------------------------------------------------------------------------------

/// Everything the core contract keeps in storage but its configuration and
/// the finalized batches.
#[derive(Clone, Copy, Debug, PartialEq, Eq, Structural)]
pub struct CoreState {
    pub fsm: ContractState,
    pub active_batch: Batch,
    pub withdrawing_batch: Option<Batch>,
    /// The last batch id handed out, if any.
    pub batch_id_counter: Option<u64>,
}

/// A message the core contract sends.
#[derive(Clone, Debug, PartialEq, Eq)]
pub enum CoreMsg {
    /// A bank transfer from this contract.
    BankSend { to_address: String, amount: Coin },
    /// Asks the token contract to mint `amount` to `recipient`.
    Mint { token_contract: String, amount: Coin, recipient: String },
    /// Hands `funds` to the token contract to burn.
    Burn { token_contract: String, funds: Coin },
    /// Asks the token contract to create a redemption denom.
    CreateRedemptionToken { token_contract: String, redemption_subdenom: String },
    /// Locks the waitosaur observer on `amount` deposited to custody.
    WaitosaurLock { contract: String, amount: u128 },
    /// Unlocks the waitosaur holder.
    WaitosaurUnlock { contract: String },
}

/// Whether `m` asks `token` to mint `amount` units of `denom` to `to`.
pub open spec fn is_mint(m: CoreMsg, token: Seq<char>, to: Seq<char>, denom: Seq<char>, amount: u128) -> bool {
    match m {
        CoreMsg::Mint { token_contract, amount: c, recipient } => token_contract@ == token
            && recipient@ == to && c.denom@ == denom && c.amount == amount,
        _ => false,
    }
}

/// Whether `m` is a bank transfer of `amount` units of `denom` to `to`.
pub open spec fn is_bank_send(m: CoreMsg, to: Seq<char>, denom: Seq<char>, amount: u128) -> bool {
    match m {
        CoreMsg::BankSend { to_address, amount: c } => to_address@ == to && c.denom@ == denom
            && c.amount == amount,
        _ => false,
    }
}

/// The batch that begins after `counter`: the next id, nothing requested yet.
pub open spec fn new_batch_spec(cfg: Config, counter: Option<u64>) -> Batch {
    Batch {
        batch_id: (match counter {
            Some(c) => c,
            None => 0,
        } + 1) as u64,
        btc_requested: 0,
        maxbtc_burned: 0,
        collected_amount: 0,
        deposit_decimals: cfg.deposit_decimals,
        collector_historical_balance: 0,
    }
}

/// Starts a new active batch after the last id handed out; returns the
/// batch (whose id becomes the new counter).
pub fn create_new_batch(cfg: &Config, counter: Option<u64>) -> (b: Batch)
    requires
        counter matches Some(c) ==> c < u64::MAX,
    ensures
        b == new_batch_spec(*cfg, counter),
{
    let last = match counter {
        Some(c) => c,
        None => 0,
    };
    Batch {
        batch_id: last + 1,
        btc_requested: 0,
        maxbtc_burned: 0,
        collected_amount: 0,
        deposit_decimals: cfg.deposit_decimals,
        collector_historical_balance: 0,
    }
}

/// What the deposit simulation reports for `amount`: refused on a stale
/// exchange rate; else the maxBTC a deposit of `amount` mints at it.
pub open spec fn simulate_spec(cfg: Config, now: u64, twaer: Decimal, published_at: u64, amount: u128) -> Result<u128, ContractError> {
    if now - published_at > cfg.exchange_rate_stale_period {
        Err(ContractError::ERDataStale)
    } else {
        minted_spec(cfg, twaer, amount)
    }
}

/// The deposit simulation: the maxBTC a deposit of `amount` would mint at
/// the published exchange rate, refused when that rate is stale.
pub fn simulate_deposit(cfg: &Config, now: u64, twaer: Decimal, published_at: u64, amount: u128) -> (r: Result<u128, ContractError>)
    requires
        published_at <= now,
        now - published_at <= cfg.exchange_rate_stale_period ==> !mint_aborts(*cfg, twaer, amount),
    ensures
        r == simulate_spec(*cfg, now, twaer, published_at, amount),
{
    let er = get_exchange_rate(cfg, now, twaer, published_at)?;
    calculate_mint_amount(cfg, er, amount)
}

// ------------------------------------------------------------------------------------------------
// Deposit
// ------------------------------------------------------------------------------------------------

/// The inputs on which a deposit aborts on an overflow or a stale clock.
pub open spec fn deposit_aborts(cfg: Config, now: u64, funds: Seq<Coin>, aum: SignedAmount, recipient_valid: bool, is_allowed: bool, twaer: Decimal, published_at: u64) -> bool {
    !cfg.paused && match must_pay_spec(funds, cfg.deposit_denom@) {
        Err(_) => false,
        Ok(a) => {
            ||| (cfg.deposits_cap is Some && aum.value() + a >= 0x8000_0000_0000_0000_0000_0000_0000_0000_0000_0000_0000_0000_0000_0000_0000_0000int)
            ||| (!cap_exceeded(cfg, aum, a) && recipient_valid && is_allowed && {
                ||| published_at > now
                ||| (now - published_at <= cfg.exchange_rate_stale_period && mint_aborts(cfg, twaer, a))
            })
        },
    }
}

/// A deposit: refused while paused; the attached funds must pay the deposit
/// denom; refused above the cap, for an invalid or non-allow-listed
/// recipient, on a stale exchange rate, below the slippage limit, and when
/// nothing would be minted. Returns the amount minted.
pub open spec fn deposit_spec(cfg: Config, now: u64, funds: Seq<Coin>, aum: SignedAmount, recipient_valid: bool, is_allowed: bool, twaer: Decimal, published_at: u64, min_receive_amount: Option<u128>) -> Result<u128, ContractError> {
    if cfg.paused {
        Err(ContractError::ContractPaused)
    } else {
        match must_pay_spec(funds, cfg.deposit_denom@) {
            Err(e) => Err(ContractError::PaymentError(e)),
            Ok(a) => if cap_exceeded(cfg, aum, a) {
                Err(ContractError::DepositCapExceeded)
            } else if !recipient_valid {
                Err(ContractError::InvalidAddress)
            } else if !is_allowed {
                Err(ContractError::AddressNotAllowed)
            } else if now - published_at > cfg.exchange_rate_stale_period {
                Err(ContractError::ERDataStale)
            } else {
                match minted_spec(cfg, twaer, a) {
                    Err(e) => Err(e),
                    Ok(m) => if min_receive_amount matches Some(min) && m < min {
                        Err(ContractError::SlippageLimitExceeded { requested: min_receive_amount->Some_0, actual: m })
                    } else if m == 0 {
                        Err(ContractError::InvalidDepositAmount)
                    } else {
                        Ok(m)
                    },
                }
            },
        }
    }
}

/// Handles a deposit minting maxBTC to `recipient`; `total_deposited` is
/// the running total of deposits, which grows by the amount paid. `aum` is the AUM the
/// exchange-rate provider reports, `is_allowed` the allow-list's answer for
/// the recipient, `twaer` and `published_at` the published exchange rate,
/// and `maxbtc_denom` the token contract's maxBTC denom.
pub fn execute_deposit(
    cfg: &Config,
    now: u64,
    funds: &Vec<Coin>,
    recipient: &String,
    recipient_valid: bool,
    is_allowed: bool,
    aum: SignedAmount,
    twaer: Decimal,
    published_at: u64,
    min_receive_amount: Option<u128>,
    maxbtc_denom: &String,
    total_deposited: u128,
) -> (r: Result<(u128, Vec<CoreMsg>, u128), ContractError>)
    requires
        !deposit_aborts(*cfg, now, funds@, aum, recipient_valid, is_allowed, twaer, published_at),
        deposit_spec(*cfg, now, funds@, aum, recipient_valid, is_allowed, twaer, published_at, min_receive_amount) is Ok
            ==> total_deposited + must_pay_spec(funds@, cfg.deposit_denom@)->Ok_0 <= u128::MAX,
    ensures
        match (r, deposit_spec(*cfg, now, funds@, aum, recipient_valid, is_allowed, twaer, published_at, min_receive_amount)) {
            (Ok(a), Ok(b)) => a.0 == b && a.2 == total_deposited + must_pay_spec(funds@, cfg.deposit_denom@)->Ok_0
                && a.1@.len() == 1 && is_mint(
                a.1@[0],
                cfg.token_contract@,
                recipient@,
                maxbtc_denom@,
                b,
            ),
            (Err(ContractError::PaymentError(a)), Err(ContractError::PaymentError(b))) => same_payment(
                Err(a),
                Err(b),
                cfg.deposit_denom@,
            ),
            (Err(a), Err(b)) => a == b,
            _ => false,
        },
{
    if cfg.paused {
        return Err(ContractError::ContractPaused);
    }
    let amount = match must_pay(funds, &cfg.deposit_denom) {
        Ok(a) => a,
        Err(e) => return Err(ContractError::PaymentError(e)),
    };
    check_deposit_cap(cfg, aum, amount)?;
    check_allowlist(recipient_valid, is_allowed)?;
    let er = get_exchange_rate(cfg, now, twaer, published_at)?;
    let minted_amount = calculate_mint_amount(cfg, er, amount)?;
    if let Some(min_amount) = min_receive_amount {
        if minted_amount < min_amount {
            return Err(
                ContractError::SlippageLimitExceeded { requested: min_amount, actual: minted_amount },
            );
        }
    }
    if minted_amount == 0 {
        return Err(ContractError::InvalidDepositAmount);
    }
    let mut msgs: Vec<CoreMsg> = Vec::new();
    msgs.push(
        CoreMsg::Mint {
            token_contract: cfg.token_contract.clone(),
            amount: Coin { denom: maxbtc_denom.clone(), amount: minted_amount },
            recipient: recipient.clone(),
        },
    );
    Ok((minted_amount, msgs, total_deposited + amount))
}

// ------------------------------------------------------------------------------------------------
// Withdrawal request and fee minting
// ------------------------------------------------------------------------------------------------

/// A withdrawal request: refused while paused and for an invalid or
/// non-allow-listed sender; the attached funds must pay maxBTC; the amount
/// is added to the active batch. Returns the amount burned.
pub open spec fn withdraw_spec(cfg: Config, st: CoreState, funds: Seq<Coin>, sender_valid: bool, is_allowed: bool, maxbtc_denom: Seq<char>) -> Result<(CoreState, u128), ContractError> {
    if cfg.paused {
        Err(ContractError::ContractPaused)
    } else if !sender_valid {
        Err(ContractError::InvalidAddress)
    } else if !is_allowed {
        Err(ContractError::AddressNotAllowed)
    } else {
        match must_pay_spec(funds, maxbtc_denom) {
            Err(e) => Err(ContractError::PaymentError(e)),
            Ok(a) => Ok(
                (
                    CoreState {
                        active_batch: Batch {
                            maxbtc_burned: (st.active_batch.maxbtc_burned + a) as u128,
                            ..st.active_batch
                        },
                        ..st
                    },
                    a,
                ),
            ),
        }
    }
}

/// Handles a withdrawal request. `maxbtc_denom` is the token contract's
/// maxBTC denom, `redemption_denom` the full denom of the active batch's
/// redemption token, and `redemption_token_exists` whether that denom
/// already has an admin.
pub fn execute_withdraw(
    cfg: &Config,
    st: &CoreState,
    funds: &Vec<Coin>,
    sender: &String,
    sender_valid: bool,
    is_allowed: bool,
    maxbtc_denom: &String,
    redemption_denom: &String,
    redemption_token_exists: bool,
) -> (r: Result<(CoreState, Vec<CoreMsg>), ContractError>)
    requires
        !cfg.paused && sender_valid && is_allowed ==> (must_pay_spec(funds@, maxbtc_denom@) matches Ok(a)
            ==> st.active_batch.maxbtc_burned + a <= u128::MAX),
    ensures
        match (r, withdraw_spec(*cfg, *st, funds@, sender_valid, is_allowed, maxbtc_denom@)) {
            (Ok(a), Ok(b)) => {
                let k = if redemption_token_exists { 1int } else { 2int };
                &&& a.0 == b.0
                &&& a.1@.len() == k + 1
                &&& a.1@[0] matches CoreMsg::Burn { token_contract, funds } && token_contract@ == cfg.token_contract@
                    && funds.denom@ == maxbtc_denom@ && funds.amount == b.1
                &&& (!redemption_token_exists ==> (a.1@[1] matches CoreMsg::CreateRedemptionToken {
                    token_contract,
                    redemption_subdenom,
                } && token_contract@ == cfg.token_contract@ && redemption_subdenom@ == "redemption/batch/"@
                    + decimal_string(st.active_batch.batch_id as nat)))
                &&& is_mint(a.1@[k], cfg.token_contract@, sender@, redemption_denom@, b.1)
            },
            (Err(ContractError::PaymentError(a)), Err(ContractError::PaymentError(b))) => same_payment(
                Err(a),
                Err(b),
                maxbtc_denom@,
            ),
            (Err(a), Err(b)) => a == b,
            _ => false,
        },
{
    if cfg.paused {
        return Err(ContractError::ContractPaused);
    }
    check_allowlist(sender_valid, is_allowed)?;
    let burned = match must_pay(funds, maxbtc_denom) {
        Ok(a) => a,
        Err(e) => return Err(ContractError::PaymentError(e)),
    };
    let mut msgs: Vec<CoreMsg> = Vec::new();
    msgs.push(
        CoreMsg::Burn {
            token_contract: cfg.token_contract.clone(),
            funds: Coin { denom: maxbtc_denom.clone(), amount: burned },
        },
    );
    let active = Batch {
        maxbtc_burned: st.active_batch.maxbtc_burned + burned,
        ..st.active_batch
    };
    if !redemption_token_exists {
        msgs.push(
            CoreMsg::CreateRedemptionToken {
                token_contract: cfg.token_contract.clone(),
                redemption_subdenom: redemption_subdenom(active.batch_id),
            },
        );
    }
    msgs.push(
        CoreMsg::Mint {
            token_contract: cfg.token_contract.clone(),
            amount: Coin { denom: redemption_denom.clone(), amount: burned },
            recipient: sender.clone(),
        },
    );
    Ok((CoreState { active_batch: active, ..*st }, msgs))
}

/// Handles the fee collector's request to mint `amount` to itself;
/// `maxbtc_denom` is the token contract's maxBTC denom.
pub fn execute_mint_fee(cfg: &Config, sender: &String, amount: &Coin, maxbtc_denom: &String) -> (r: Result<Vec<CoreMsg>, ContractError>)
    ensures
        cfg.paused ==> r == Err::<Vec<CoreMsg>, ContractError>(ContractError::ContractPaused),
        !cfg.paused && sender@ != cfg.fee_collector_contract@ ==> r == Err::<Vec<CoreMsg>, ContractError>(
            ContractError::Unauthorized,
        ),
        !cfg.paused && sender@ == cfg.fee_collector_contract@ && amount.denom@ != maxbtc_denom@ ==> r
            == Err::<Vec<CoreMsg>, ContractError>(
            ContractError::InvalidMintDenom { expected: *maxbtc_denom, received: amount.denom },
        ),
        !cfg.paused && sender@ == cfg.fee_collector_contract@ && amount.denom@ == maxbtc_denom@ ==> r is Ok
            && r->Ok_0@.len() == 1 && is_mint(
            r->Ok_0@[0],
            cfg.token_contract@,
            sender@,
            maxbtc_denom@,
            amount.amount,
        ),
{
    if cfg.paused {
        return Err(ContractError::ContractPaused);
    }
    if *sender != cfg.fee_collector_contract {
        return Err(ContractError::Unauthorized);
    }
    if amount.denom != *maxbtc_denom {
        return Err(
            ContractError::InvalidMintDenom {
                expected: maxbtc_denom.clone(),
                received: amount.denom.clone(),
            },
        );
    }
    let mut msgs: Vec<CoreMsg> = Vec::new();
    msgs.push(
        CoreMsg::Mint {
            token_contract: cfg.token_contract.clone(),
            amount: Coin { denom: amount.denom.clone(), amount: amount.amount },
            recipient: sender.clone(),
        },
    );
    Ok(msgs)
}

// ------------------------------------------------------------------------------------------------
// The operator's ticks
// ------------------------------------------------------------------------------------------------

/// Which step a tick took.
#[derive(Clone, Copy, Debug, PartialEq, Eq, Structural)]
pub enum TickStage {
    /// Idle with nothing to do.
    Idle,
    /// Idle: the active batch was settled from the deposits as far as they go.
    IdleWithdrawal,
    /// Idle: the deposits were flushed.
    FlushDeposits,
    DepositNeutron,
    DepositPending,
    DepositJLP,
    WithdrawJLP,
    WithdrawPending,
    WithdrawNeutron,
}

/// What the ticks read from the outside world.
#[derive(Clone, Copy, Debug, PartialEq, Eq, Structural)]
pub struct TickInputs {
    /// This contract's balance of the deposit denom.
    pub deposit_balance: u128,
    /// The published exchange rate and when it was published.
    pub twaer: Decimal,
    pub published_at: u64,
    /// Whether the waitosaur observer is locked.
    pub observer_locked: bool,
    /// The amount the waitosaur holder is locked on, if it is locked.
    pub holder_locked_amount: Option<u128>,
}

/// The BTC the active batch requests: its burned maxBTC times the exchange
/// rate, rounded down to a whole unit.
pub open spec fn btc_requested_spec(er: Decimal, burned: u128) -> int {
    mul_atomics(er.atomics as int, burned * DECIMAL_FRACTIONAL) / (DECIMAL_FRACTIONAL as int)
}

/// The inputs on which a tick aborts on an overflow or a stale clock.
pub open spec fn tick_aborts(cfg: Config, st: CoreState, now: u64, inp: TickInputs) -> bool {
    match st.fsm {
        ContractState::Idle => if st.active_batch.maxbtc_burned != 0 {
            ||| inp.published_at > now
            ||| (now - inp.published_at <= cfg.exchange_rate_stale_period
                && fits_u128(st.active_batch.maxbtc_burned * DECIMAL_FRACTIONAL)
                && fits_u128(mul_atomics(inp.twaer.atomics as int, st.active_batch.maxbtc_burned * DECIMAL_FRACTIONAL))
                && st.batch_id_counter == Some(u64::MAX))
        } else {
            false
        },
        ContractState::WithdrawPending => match (st.withdrawing_batch, inp.holder_locked_amount) {
            (Some(wb), Some(a)) => wb.collected_amount + a > u128::MAX,
            _ => false,
        },
        _ => false,
    }
}

/// A tick of the operator. Refused while paused and to anyone but the
/// operator. From `Idle`: when maxBTC was burned into the active batch, the
/// batch requests its value at the (fresh) exchange rate and is covered
/// from the deposits as far as they go; fully covered it is finalized, else
/// it becomes the withdrawing batch and the machine moves to `WithdrawJLP`;
/// a new batch begins. Otherwise deposits, if any, are flushed and the
/// machine moves to `DepositNeutron`. From `DepositNeutron` it moves on
/// unless the observer is locked; from `WithdrawPending` it moves on once
/// the holder is locked on the returned BTC, adding it to the batch; from
/// `WithdrawNeutron` the withdrawing batch is finalized and the machine is
/// idle again. Returns the new state, the batch to store as finalized, the
/// stage, and the amount sent.
pub open spec fn tick_spec(cfg: Config, st: CoreState, sender: Seq<char>, now: u64, inp: TickInputs) -> Result<(CoreState, Option<Batch>, TickStage, u128), ContractError> {
    if cfg.paused {
        Err(ContractError::ContractPaused)
    } else if cfg.operator@ != sender {
        Err(ContractError::Unauthorized)
    } else {
        match st.fsm {
            ContractState::Idle => if st.active_batch.maxbtc_burned != 0 {
                if now - inp.published_at > cfg.exchange_rate_stale_period {
                    Err(ContractError::ERDataStale)
                } else if !fits_u128(st.active_batch.maxbtc_burned * DECIMAL_FRACTIONAL) {
                    Err(ContractError::DecimalRangeExceeded)
                } else if !fits_u128(mul_atomics(inp.twaer.atomics as int, st.active_batch.maxbtc_burned * DECIMAL_FRACTIONAL)) {
                    Err(ContractError::OverflowError)
                } else {
                    let requested = btc_requested_spec(inp.twaer, st.active_batch.maxbtc_burned);
                    let collected = if requested < inp.deposit_balance {
                        requested
                    } else {
                        inp.deposit_balance as int
                    };
                    let settled = Batch {
                        btc_requested: requested as u128,
                        collected_amount: collected as u128,
                        ..st.active_batch
                    };
                    let nb = new_batch_spec(cfg, st.batch_id_counter);
                    if requested <= inp.deposit_balance {
                        Ok(
                            (
                                CoreState { active_batch: nb, batch_id_counter: Some(nb.batch_id), ..st },
                                Some(settled),
                                TickStage::IdleWithdrawal,
                                collected as u128,
                            ),
                        )
                    } else {
                        Ok(
                            (
                                CoreState {
                                    fsm: ContractState::WithdrawJLP,
                                    withdrawing_batch: Some(settled),
                                    active_batch: nb,
                                    batch_id_counter: Some(nb.batch_id),
                                },
                                None,
                                TickStage::IdleWithdrawal,
                                collected as u128,
                            ),
                        )
                    }
                }
            } else if inp.deposit_balance != 0 {
                if !fits_u128(inp.deposit_balance * DECIMAL_FRACTIONAL) {
                    Err(ContractError::DecimalRangeExceeded)
                } else {
                    Ok(
                        (
                            CoreState { fsm: ContractState::DepositNeutron, ..st },
                            None,
                            TickStage::FlushDeposits,
                            inp.deposit_balance,
                        ),
                    )
                }
            } else {
                Ok((st, None, TickStage::Idle, 0))
            },
            ContractState::DepositNeutron => if inp.observer_locked {
                Err(ContractError::WaitosaurLocked)
            } else {
                Ok((CoreState { fsm: ContractState::DepositPending, ..st }, None, TickStage::DepositNeutron, 0))
            },
            ContractState::DepositPending => Ok(
                (CoreState { fsm: ContractState::DepositJLP, ..st }, None, TickStage::DepositPending, 0),
            ),
            ContractState::DepositJLP => Ok(
                (CoreState { fsm: ContractState::Idle, ..st }, None, TickStage::DepositJLP, 0),
            ),
            ContractState::WithdrawJLP => Ok(
                (CoreState { fsm: ContractState::WithdrawPending, ..st }, None, TickStage::WithdrawJLP, 0),
            ),
            ContractState::WithdrawPending => match (st.withdrawing_batch, inp.holder_locked_amount) {
                (Some(wb), Some(a)) => Ok(
                    (
                        CoreState {
                            fsm: ContractState::WithdrawNeutron,
                            withdrawing_batch: Some(
                                Batch { collected_amount: (wb.collected_amount + a) as u128, ..wb },
                            ),
                            ..st
                        },
                        None,
                        TickStage::WithdrawPending,
                        a,
                    ),
                ),
                _ => Ok((st, None, TickStage::WithdrawPending, 0)),
            },
            ContractState::WithdrawNeutron => Ok(
                (
                    CoreState { fsm: ContractState::Idle, withdrawing_batch: None, ..st },
                    st.withdrawing_batch,
                    TickStage::WithdrawNeutron,
                    0,
                ),
            ),
        }
    }
}

/// What a tick decided.
pub struct TickResult {
    pub state: CoreState,
    pub finalized: Option<Batch>,
    pub stage: TickStage,
    pub msgs: Vec<CoreMsg>,
    /// The BTC sent (idle withdrawal or flush) or received (pending withdrawal).
    pub amount: u128,
}

/// The messages each stage sends. (A pending withdrawal that moves on
/// sends the unlock of the holder, and one that waits sends nothing; the
/// handler states which of the two happened.)
pub open spec fn tick_msgs_ok(cfg: Config, stage: TickStage, amount: u128, msgs: Seq<CoreMsg>) -> bool {
    match stage {
        TickStage::IdleWithdrawal => msgs.len() == 1 && is_bank_send(
            msgs[0],
            cfg.withdrawal_manager_contract@,
            cfg.deposit_denom@,
            amount,
        ),
        TickStage::FlushDeposits => msgs.len() == 2 && is_bank_send(
            msgs[0],
            cfg.deposit_forwarder_contract@,
            cfg.deposit_denom@,
            amount,
        ) && msgs[1] == (CoreMsg::WaitosaurLock { contract: cfg.waitosaur_observer_contract, amount }),
        TickStage::WithdrawPending => if amount > 0 || msgs.len() > 0 {
            msgs.len() == 1 && msgs[0] == (CoreMsg::WaitosaurUnlock { contract: cfg.waitosaur_holder_contract })
        } else {
            true
        },
        _ => msgs.len() == 0,
    }
}

/// Handles a tick of the operator `sender`.
pub fn execute_tick(cfg: &Config, st: &CoreState, sender: &String, now: u64, inp: &TickInputs) -> (r: Result<TickResult, ContractError>)
    requires
        !tick_aborts(*cfg, *st, now, *inp),
    ensures
        match (r, tick_spec(*cfg, *st, sender@, now, *inp)) {
            (Ok(a), Ok(b)) => a.state == b.0 && a.finalized == b.1 && a.stage == b.2 && a.amount == b.3
                && tick_msgs_ok(*cfg, a.stage, a.amount, a.msgs@) && (a.stage == TickStage::WithdrawPending
                ==> (a.msgs@.len() == 1 <==> a.state.fsm == ContractState::WithdrawNeutron)),
            (Err(a), Err(b)) => a == b,
            _ => false,
        },
{
    if cfg.paused {
        return Err(ContractError::ContractPaused);
    }
    if cfg.operator != *sender {
        return Err(ContractError::Unauthorized);
    }
    let mut msgs: Vec<CoreMsg> = Vec::new();
    match st.fsm {
        ContractState::Idle => {
            if st.active_batch.maxbtc_burned != 0 {
                let er = get_exchange_rate(cfg, now, inp.twaer, inp.published_at)?;
                proof {
                    assert(pow10(18) == DECIMAL_FRACTIONAL) by {
                        reveal_with_fuel(pow10, 19);
                    }
                }
                let burned = match Decimal::from_atomics(st.active_batch.maxbtc_burned, 0) {
                    Some(d) => d,
                    None => return Err(ContractError::DecimalRangeExceeded),
                };
                let value = match er.checked_mul(burned) {
                    Some(v) => v,
                    None => return Err(ContractError::OverflowError),
                };
                let requested = value.to_uint_floor();
                let collected = if requested < inp.deposit_balance {
                    requested
                } else {
                    inp.deposit_balance
                };
                let settled = Batch {
                    btc_requested: requested,
                    collected_amount: collected,
                    ..st.active_batch
                };
                let nb = create_new_batch(cfg, st.batch_id_counter);
                let (state, finalized) = if requested <= inp.deposit_balance {
                    (
                        CoreState { active_batch: nb, batch_id_counter: Some(nb.batch_id), ..*st },
                        Some(settled),
                    )
                } else {
                    (
                        CoreState {
                            fsm: ContractState::WithdrawJLP,
                            withdrawing_batch: Some(settled),
                            active_batch: nb,
                            batch_id_counter: Some(nb.batch_id),
                        },
                        None,
                    )
                };
                msgs.push(
                    CoreMsg::BankSend {
                        to_address: cfg.withdrawal_manager_contract.clone(),
                        amount: Coin { denom: cfg.deposit_denom.clone(), amount: collected },
                    },
                );
                Ok(TickResult { state, finalized, stage: TickStage::IdleWithdrawal, msgs, amount: collected })
            } else if inp.deposit_balance != 0 {
                let state = CoreState { fsm: ContractState::DepositNeutron, ..*st };
                let msgs = match flush_to_forwarder(cfg, &state, inp.deposit_balance) {
                    Ok(m) => m,
                    Err(e) => return Err(e),
                };
                Ok(
                    TickResult {
                        state,
                        finalized: None,
                        stage: TickStage::FlushDeposits,
                        msgs,
                        amount: inp.deposit_balance,
                    },
                )
            } else {
                Ok(TickResult { state: *st, finalized: None, stage: TickStage::Idle, msgs, amount: 0 })
            }
        },
        ContractState::DepositNeutron => {
            if inp.observer_locked {
                return Err(ContractError::WaitosaurLocked);
            }
            Ok(
                TickResult {
                    state: CoreState { fsm: ContractState::DepositPending, ..*st },
                    finalized: None,
                    stage: TickStage::DepositNeutron,
                    msgs,
                    amount: 0,
                },
            )
        },
        ContractState::DepositPending => Ok(
            TickResult {
                state: CoreState { fsm: ContractState::DepositJLP, ..*st },
                finalized: None,
                stage: TickStage::DepositPending,
                msgs,
                amount: 0,
            },
        ),
        ContractState::DepositJLP => Ok(
            TickResult {
                state: CoreState { fsm: ContractState::Idle, ..*st },
                finalized: None,
                stage: TickStage::DepositJLP,
                msgs,
                amount: 0,
            },
        ),
        ContractState::WithdrawJLP => Ok(
            TickResult {
                state: CoreState { fsm: ContractState::WithdrawPending, ..*st },
                finalized: None,
                stage: TickStage::WithdrawJLP,
                msgs,
                amount: 0,
            },
        ),
        ContractState::WithdrawPending => {
            match (st.withdrawing_batch, inp.holder_locked_amount) {
                (Some(wb), Some(a)) => {
                    msgs.push(CoreMsg::WaitosaurUnlock { contract: cfg.waitosaur_holder_contract.clone() });
                    let wb = Batch { collected_amount: wb.collected_amount + a, ..wb };
                    Ok(
                        TickResult {
                            state: CoreState {
                                fsm: ContractState::WithdrawNeutron,
                                withdrawing_batch: Some(wb),
                                ..*st
                            },
                            finalized: None,
                            stage: TickStage::WithdrawPending,
                            msgs,
                            amount: a,
                        },
                    )
                },
                _ => Ok(
                    TickResult {
                        state: *st,
                        finalized: None,
                        stage: TickStage::WithdrawPending,
                        msgs,
                        amount: 0,
                    },
                ),
            }
        },
        ContractState::WithdrawNeutron => Ok(
            TickResult {
                state: CoreState { fsm: ContractState::Idle, withdrawing_batch: None, ..*st },
                finalized: st.withdrawing_batch,
                stage: TickStage::WithdrawNeutron,
                msgs,
                amount: 0,
            },
        ),
    }
}

/// The operator's flush within a tick: the deposit balance `amount` goes to
/// the deposit forwarder and the waitosaur observer is locked on it; only
/// in `DepositNeutron`.
pub fn flush_to_forwarder(cfg: &Config, st: &CoreState, amount: u128) -> (r: Result<Vec<CoreMsg>, ContractError>)
    ensures
        st.fsm != ContractState::DepositNeutron ==> r == Err::<Vec<CoreMsg>, ContractError>(
            ContractError::FlushDepositAllowedInDepositNeutron,
        ),
        st.fsm == ContractState::DepositNeutron && cfg.paused ==> r == Err::<Vec<CoreMsg>, ContractError>(
            ContractError::ContractPaused,
        ),
        st.fsm == ContractState::DepositNeutron && !cfg.paused && !fits_u128(amount * DECIMAL_FRACTIONAL)
            ==> r == Err::<Vec<CoreMsg>, ContractError>(ContractError::DecimalRangeExceeded),
        st.fsm == ContractState::DepositNeutron && !cfg.paused && fits_u128(amount * DECIMAL_FRACTIONAL)
            ==> r is Ok,
        r is Ok ==> st.fsm == ContractState::DepositNeutron && !cfg.paused && fits_u128(amount * DECIMAL_FRACTIONAL) && {
            let msgs = r->Ok_0@;
            let k = if amount > 0 { 1int } else { 0int };
            &&& msgs.len() == k + 1
            &&& (amount > 0 ==> is_bank_send(msgs[0], cfg.deposit_forwarder_contract@, cfg.deposit_denom@, amount))
            &&& msgs[k] == (CoreMsg::WaitosaurLock { contract: cfg.waitosaur_observer_contract, amount })
        },
{
    if st.fsm != ContractState::DepositNeutron {
        return Err(ContractError::FlushDepositAllowedInDepositNeutron);
    }
    if cfg.paused {
        return Err(ContractError::ContractPaused);
    }
    let mut msgs: Vec<CoreMsg> = Vec::new();
    if amount != 0 {
        msgs.push(
            CoreMsg::BankSend {
                to_address: cfg.deposit_forwarder_contract.clone(),
                amount: Coin { denom: cfg.deposit_denom.clone(), amount },
            },
        );
    }
    proof {
        reveal_with_fuel(pow10, 19);
    }
    if Decimal::from_atomics(amount, 0).is_none() {
        return Err(ContractError::DecimalRangeExceeded);
    }
    msgs.push(
        CoreMsg::WaitosaurLock { contract: cfg.waitosaur_observer_contract.clone(), amount },
    );
    Ok(msgs)
}

/// Whether the flush period has passed since the last public flush.
pub open spec fn flush_period_passed(cfg: Config, last_flush: u64, now: u64) -> bool {
    now >= last_flush + cfg.deposit_flush_period
}

/// The public deposit flush, open to anyone: refused while paused; before
/// the flush period has passed since `last_flush` nothing is sent;
/// otherwise the whole deposit balance `balance` goes to the deposit
/// forwarder (nothing for a zero balance) and the flush time becomes `now`.
/// Returns the flush time to record and the messages.
pub fn execute_flush_deposits(cfg: &Config, last_flush: u64, now: u64, balance: u128) -> (r: Result<(u64, Vec<CoreMsg>), ContractError>)
    ensures
        cfg.paused ==> r == Err::<(u64, Vec<CoreMsg>), ContractError>(ContractError::ContractPaused),
        !cfg.paused ==> r is Ok,
        r is Ok && !flush_period_passed(*cfg, last_flush, now) ==> r->Ok_0.0 == last_flush && r->Ok_0.1@.len() == 0,
        r is Ok && flush_period_passed(*cfg, last_flush, now) ==> r->Ok_0.0 == now && r->Ok_0.1@.len() == (if balance > 0 {
            1int
        } else {
            0int
        }) && (balance > 0 ==> is_bank_send(r->Ok_0.1@[0], cfg.deposit_forwarder_contract@, cfg.deposit_denom@, balance)),
{
    if cfg.paused {
        return Err(ContractError::ContractPaused);
    }
    let mut msgs: Vec<CoreMsg> = Vec::new();
    if now < last_flush || now - last_flush < cfg.deposit_flush_period {
        return Ok((last_flush, msgs));
    }
    if balance != 0 {
        msgs.push(
            CoreMsg::BankSend {
                to_address: cfg.deposit_forwarder_contract.clone(),
                amount: Coin { denom: cfg.deposit_denom.clone(), amount: balance },
            },
        );
    }
    Ok((now, msgs))
}

// ------------------------------------------------------------------------------------------------
// Instantiation and configuration
// ------------------------------------------------------------------------------------------------

/// The changes an owner asks for; an absent field stays as it is.
#[derive(Clone, Debug, PartialEq, Eq)]
pub struct UpdateConfigMsg {
    pub paused: Option<bool>,
    /// A new owner.
    pub owner: Option<AddressInput>,
    pub operator: Option<AddressInput>,
    pub deposit_forwarder_contract: Option<AddressInput>,
    /// A new cap, or `Some(None)` to lift the cap.
    pub deposits_cap: Option<Option<u128>>,
    pub deposit_cost: Option<Decimal>,
    pub allowlist_contract: Option<AddressInput>,
    pub exchange_rate_provider_contract: Option<AddressInput>,
    pub fee_collector_contract: Option<AddressInput>,
    pub waitosaur_observer_contract: Option<AddressInput>,
    pub waitsaur_holder_contract: Option<AddressInput>,
    pub withdrawal_manager_contract: Option<AddressInput>,
    pub exchange_rate_stale_period: Option<u64>,
    pub deposit_flush_period: Option<u64>,
}

/// Why an update is refused, checked in the order of the fields: the sender
/// must be the owner, then the addresses up to the deposit cost (the new
/// owner among them), the deposit cost (it
/// must stay below one), the remaining addresses, and the stale period
/// (it must be positive).
pub open spec fn update_config_error(owner: Option<String>, sender: Seq<char>, u: UpdateConfigMsg) -> Option<ContractError> {
    if owner is None {
        Some(ContractError::Ownership(OwnershipError::NoOwner))
    } else if owner.unwrap()@ != sender {
        Some(ContractError::Ownership(OwnershipError::NotOwner))
    } else if !address_ok(u.owner) || !address_ok(u.operator) || !address_ok(u.deposit_forwarder_contract) {
        Some(ContractError::InvalidAddress)
    } else if u.deposit_cost is Some && u.deposit_cost.unwrap().atomics >= DECIMAL_FRACTIONAL {
        Some(ContractError::DepositCostTooHigh)
    } else if !address_ok(u.allowlist_contract) || !address_ok(u.exchange_rate_provider_contract)
        || !address_ok(u.fee_collector_contract) || !address_ok(u.waitosaur_observer_contract)
        || !address_ok(u.waitsaur_holder_contract) || !address_ok(u.withdrawal_manager_contract) {
        Some(ContractError::InvalidAddress)
    } else if u.exchange_rate_stale_period == Some(0u64) {
        Some(ContractError::StalePeriodMustBePositive)
    } else {
        None
    }
}

/// The update that changes nothing.
pub open spec fn no_update() -> UpdateConfigMsg {
    UpdateConfigMsg {
        paused: None,
        operator: None,
        deposit_forwarder_contract: None,
        deposits_cap: None,
        deposit_cost: None,
        allowlist_contract: None,
        exchange_rate_provider_contract: None,
        fee_collector_contract: None,
        waitosaur_observer_contract: None,
        waitsaur_holder_contract: None,
        withdrawal_manager_contract: None,
        exchange_rate_stale_period: None,
        deposit_flush_period: None,
        owner: None,
    }
}

/// `new` is `old` with the update's fields put in.
pub open spec fn config_updated(old: Config, new: Config, u: UpdateConfigMsg) -> bool {
    &&& new.paused == (match u.paused {
        Some(p) => p,
        None => old.paused,
    })
    &&& new.operator@ == updated_address(old.operator, u.operator)
    &&& new.token_contract@ == old.token_contract@
    &&& new.factory_contract@ == old.factory_contract@
    &&& new.deposit_forwarder_contract@ == updated_address(old.deposit_forwarder_contract, u.deposit_forwarder_contract)
    &&& new.deposit_denom@ == old.deposit_denom@
    &&& new.deposit_decimals == old.deposit_decimals
    &&& new.deposit_cost == (match u.deposit_cost {
        Some(c) => c,
        None => old.deposit_cost,
    })
    &&& new.deposits_cap == (match u.deposits_cap {
        Some(c) => c,
        None => old.deposits_cap,
    })
    &&& new.allowlist_contract@ == updated_address(old.allowlist_contract, u.allowlist_contract)
    &&& new.exchange_rate_provider_contract@ == updated_address(old.exchange_rate_provider_contract, u.exchange_rate_provider_contract)
    &&& new.exchange_rate_stale_period == (match u.exchange_rate_stale_period {
        Some(p) => p,
        None => old.exchange_rate_stale_period,
    })
    &&& new.fee_collector_contract@ == updated_address(old.fee_collector_contract, u.fee_collector_contract)
    &&& new.waitosaur_observer_contract@ == updated_address(old.waitosaur_observer_contract, u.waitosaur_observer_contract)
    &&& new.waitosaur_holder_contract@ == updated_address(old.waitosaur_holder_contract, u.waitsaur_holder_contract)
    &&& new.withdrawal_manager_contract@ == updated_address(old.withdrawal_manager_contract, u.withdrawal_manager_contract)
    &&& new.deposit_flush_period == (match u.deposit_flush_period {
        Some(p) => p,
        None => old.deposit_flush_period,
    })
}

fn put_address(field: &mut String, a: &Option<AddressInput>)
    ensures
        final(field)@ == updated_address(*old(field), *a),
{
    if let Some(x) = a {
        *field = x.address.clone();
    }
}

/// The owner's update of the configuration: the new configuration and the
/// new owner (when the update names one), or the first reason to refuse the
/// update.
pub fn execute_update_config(cfg: &Config, owner: &Option<String>, sender: &String, u: &UpdateConfigMsg) -> (r: Result<(Config, Option<String>), ContractError>)
    ensures
        match r {
            Ok((c, o)) => update_config_error(*owner, sender@, *u) is None && config_updated(*cfg, c, *u) && match u.owner {
                Some(a) => o is Some && o.unwrap()@ == a.address@,
                None => o is None,
            },
            Err(e) => update_config_error(*owner, sender@, *u) == Some(e),
        },
{
    match assert_owner(owner, sender) {
        Ok(()) => {},
        Err(e) => return Err(ContractError::Ownership(e)),
    }
    let mut c = cfg.copy();
    if let Some(p) = u.paused {
        c.paused = p;
    }
    if !address_input_ok(&u.owner) || !address_input_ok(&u.operator) || !address_input_ok(&u.deposit_forwarder_contract) {
        return Err(ContractError::InvalidAddress);
    }
    put_address(&mut c.operator, &u.operator);
    put_address(&mut c.deposit_forwarder_contract, &u.deposit_forwarder_contract);
    if let Some(cap) = u.deposits_cap {
        c.deposits_cap = cap;
    }
    if let Some(cost) = u.deposit_cost {
        if cost.atomics >= DECIMAL_FRACTIONAL {
            return Err(ContractError::DepositCostTooHigh);
        }
        c.deposit_cost = cost;
    }
    if !address_input_ok(&u.allowlist_contract) || !address_input_ok(&u.exchange_rate_provider_contract)
        || !address_input_ok(&u.fee_collector_contract) || !address_input_ok(&u.waitosaur_observer_contract)
        || !address_input_ok(&u.waitsaur_holder_contract) || !address_input_ok(&u.withdrawal_manager_contract) {
        return Err(ContractError::InvalidAddress);
    }
    put_address(&mut c.allowlist_contract, &u.allowlist_contract);
    put_address(&mut c.exchange_rate_provider_contract, &u.exchange_rate_provider_contract);
    put_address(&mut c.fee_collector_contract, &u.fee_collector_contract);
    put_address(&mut c.waitosaur_observer_contract, &u.waitosaur_observer_contract);
    put_address(&mut c.waitosaur_holder_contract, &u.waitsaur_holder_contract);
    put_address(&mut c.withdrawal_manager_contract, &u.withdrawal_manager_contract);
    if let Some(p) = u.exchange_rate_stale_period {
        if p < 1 {
            return Err(ContractError::StalePeriodMustBePositive);
        }
        c.exchange_rate_stale_period = p;
    }
    if let Some(p) = u.deposit_flush_period {
        c.deposit_flush_period = p;
    }
    let new_owner = match &u.owner {
        Some(a) => Some(a.address.clone()),
        None => None,
    };
    Ok((c, new_owner))
}

/// What the core contract is instantiated with.
#[derive(Clone, Debug, PartialEq, Eq)]
pub struct InstantiateMsg {
    pub owner: AddressInput,
    pub operator: AddressInput,
    pub token_contract: AddressInput,
    pub factory_contract: AddressInput,
    pub deposit_forwarder_contract: AddressInput,
    pub deposit_denom: String,
    pub deposit_decimals: u32,
    pub deposit_cost: Decimal,
    pub deposits_cap: Option<u128>,
    pub allowlist_contract: AddressInput,
    pub exchange_rate_provider_contract: AddressInput,
    pub exchange_rate_stale_period: u64,
    pub fee_collector_contract: AddressInput,
    pub waitosaur_observer_contract: AddressInput,
    pub waitosaur_holder_contract: AddressInput,
    pub withdrawal_manager_contract: AddressInput,
}

/// Why instantiation is refused: an invalid owner, a deposit cost of one or
/// more, or another invalid address, in that order.
pub open spec fn instantiate_error(m: InstantiateMsg) -> Option<ContractError> {
    if !m.owner.valid {
        Some(ContractError::InvalidAddress)
    } else if m.deposit_cost.atomics >= DECIMAL_FRACTIONAL {
        Some(ContractError::DepositCostTooHigh)
    } else if !(m.operator.valid && m.token_contract.valid && m.factory_contract.valid
        && m.deposit_forwarder_contract.valid && m.allowlist_contract.valid
        && m.exchange_rate_provider_contract.valid && m.fee_collector_contract.valid
        && m.waitosaur_observer_contract.valid && m.waitosaur_holder_contract.valid
        && m.withdrawal_manager_contract.valid) {
        Some(ContractError::InvalidAddress)
    } else {
        None
    }
}

/// The configuration a message sets up: unpaused, every field from the
/// message, and no flush period until the owner sets one.
pub open spec fn config_from_msg(c: Config, m: InstantiateMsg) -> bool {
    &&& !c.paused
    &&& c.operator@ == m.operator.address@
    &&& c.token_contract@ == m.token_contract.address@
    &&& c.factory_contract@ == m.factory_contract.address@
    &&& c.deposit_forwarder_contract@ == m.deposit_forwarder_contract.address@
    &&& c.deposit_denom@ == m.deposit_denom@
    &&& c.deposit_decimals == m.deposit_decimals
    &&& c.deposit_cost == m.deposit_cost
    &&& c.deposits_cap == m.deposits_cap
    &&& c.allowlist_contract@ == m.allowlist_contract.address@
    &&& c.exchange_rate_provider_contract@ == m.exchange_rate_provider_contract.address@
    &&& c.exchange_rate_stale_period == m.exchange_rate_stale_period
    &&& c.fee_collector_contract@ == m.fee_collector_contract.address@
    &&& c.waitosaur_observer_contract@ == m.waitosaur_observer_contract.address@
    &&& c.waitosaur_holder_contract@ == m.waitosaur_holder_contract.address@
    &&& c.withdrawal_manager_contract@ == m.withdrawal_manager_contract.address@
    &&& c.deposit_flush_period == 0
}

/// The state right after instantiation: idle, nothing withdrawing, the
/// first batch active.
pub open spec fn initial_state(c: Config) -> CoreState {
    CoreState {
        fsm: ContractState::Idle,
        active_batch: new_batch_spec(c, None),
        withdrawing_batch: None,
        batch_id_counter: Some(1),
    }
}

/// Instantiates the core contract: its configuration and its first state.
pub fn instantiate(m: &InstantiateMsg) -> (r: Result<(Config, CoreState), ContractError>)
    ensures
        match r {
            Ok((c, st)) => instantiate_error(*m) is None && config_from_msg(c, *m) && st == initial_state(c),
            Err(e) => instantiate_error(*m) == Some(e),
        },
{
    if !m.owner.valid {
        return Err(ContractError::InvalidAddress);
    }
    if m.deposit_cost.atomics >= DECIMAL_FRACTIONAL {
        return Err(ContractError::DepositCostTooHigh);
    }
    if !(m.operator.valid && m.token_contract.valid && m.factory_contract.valid
        && m.deposit_forwarder_contract.valid && m.allowlist_contract.valid
        && m.exchange_rate_provider_contract.valid && m.fee_collector_contract.valid
        && m.waitosaur_observer_contract.valid && m.waitosaur_holder_contract.valid
        && m.withdrawal_manager_contract.valid) {
        return Err(ContractError::InvalidAddress);
    }
    let c = Config {
        paused: false,
        operator: m.operator.address.clone(),
        token_contract: m.token_contract.address.clone(),
        factory_contract: m.factory_contract.address.clone(),
        deposit_forwarder_contract: m.deposit_forwarder_contract.address.clone(),
        deposit_denom: m.deposit_denom.clone(),
        deposit_decimals: m.deposit_decimals,
        deposit_cost: m.deposit_cost,
        deposits_cap: m.deposits_cap,
        allowlist_contract: m.allowlist_contract.address.clone(),
        exchange_rate_provider_contract: m.exchange_rate_provider_contract.address.clone(),
        exchange_rate_stale_period: m.exchange_rate_stale_period,
        fee_collector_contract: m.fee_collector_contract.address.clone(),
        waitosaur_observer_contract: m.waitosaur_observer_contract.address.clone(),
        waitosaur_holder_contract: m.waitosaur_holder_contract.address.clone(),
        withdrawal_manager_contract: m.withdrawal_manager_contract.address.clone(),
        deposit_flush_period: 0,
    };
    let first = create_new_batch(&c, None);
    let st = CoreState {
        fsm: ContractState::Idle,
        active_batch: first,
        withdrawing_batch: None,
        batch_id_counter: Some(first.batch_id),
    };
    Ok((c, st))
}

/// How many finalized batches one page of the listing holds: the limit
/// asked for (ten by default), at most a hundred.
pub fn finalized_batches_page_size(limit: Option<u32>) -> (n: u32)
    ensures
        n == (match limit {
            Some(l) => if l < 100 { l } else { 100 },
            None => 10,
        }),
{
    let l = match limit {
        Some(l) => l,
        None => 10,
    };
    if l < 100 {
        l
    } else {
        100
    }
}

/// Whether a batch id comes after the bound of a listing.
pub open spec fn after(start_after: Option<u64>, id: u64) -> bool {
    match start_after {
        Some(b) => id > b,
        None => true,
    }
}

fn id_after(start_after: Option<u64>, id: u64) -> (b: bool)
    ensures
        b == after(start_after, id),
{
    match start_after {
        Some(s) => id > s,
        None => true,
    }
}

/// One page of the finalized batches, held ascending by id as the store
/// walks them: the batches after `start_after`, at most
/// `finalized_batches_page_size(limit)` of them, in order.
pub fn finalized_batches_page(batches: &Vec<Batch>, start_after: Option<u64>, limit: Option<u32>) -> (page: Vec<Batch>)
    requires
        forall|i: int, j: int| 0 <= i < j < batches@.len() ==> batches@[i].batch_id < batches@[j].batch_id,
    ensures
        exists|k: int|
            #![trigger batches@.subrange(k, batches@.len() as int)]
            0 <= k <= batches@.len() && (forall|i: int| 0 <= i < k ==> !after(start_after, #[trigger] batches@[i].batch_id))
                && (forall|i: int| k <= i < batches@.len() ==> after(start_after, #[trigger] batches@[i].batch_id))
                && page@ == batches@.subrange(k, batches@.len() as int).take(
                    if batches@.len() - k < (match limit {
                        Some(l) => if l < 100 { l } else { 100 },
                        None => 10u32,
                    }) {
                        batches@.len() - k
                    } else {
                        (match limit {
                            Some(l) => if l < 100 { l } else { 100 },
                            None => 10u32,
                        }) as int
                    },
                ),
{
    let n = finalized_batches_page_size(limit);
    let mut k: usize = 0;
    while k < batches.len() && !id_after(start_after, batches[k].batch_id)
        invariant
            k <= batches@.len(),
            forall|i: int| 0 <= i < k ==> !after(start_after, #[trigger] batches@[i].batch_id),
        decreases batches@.len() - k,
    {
        k = k + 1;
    }
    proof {
        assert forall|i: int| k <= i < batches@.len() implies after(start_after, #[trigger] batches@[i].batch_id) by {
            if i > k {
                assert(batches@[k as int].batch_id < batches@[i].batch_id);
            }
        }
    }
    let mut page: Vec<Batch> = Vec::new();
    let mut j: usize = k;
    while j < batches.len() && j - k < n as usize
        invariant
            k <= j <= batches@.len(),
            j - k <= n,
            page@ == batches@.subrange(k as int, j as int),
        decreases batches@.len() - j,
    {
        page.push(batches[j]);
        j = j + 1;
    }
    proof {
        let rest = batches@.subrange(k as int, batches@.len() as int);
        assert(page@ =~= rest.take((j - k) as int));
    }
    page
}

/// The deposit coin among the funds attached: exactly one coin, of the
/// deposit denom, with a non-zero amount.
pub fn get_deposit_coin(deposit_denom: String, funds: Vec<Coin>) -> (r: Result<Coin, ContractError>)
    ensures
        funds@.len() == 0 ==> r == Err::<Coin, ContractError>(ContractError::NoFundsSent),
        funds@.len() > 1 ==> r == Err::<Coin, ContractError>(ContractError::InvalidDepositAmount),
        funds@.len() == 1 && funds@[0].denom@ != deposit_denom@ ==> r is Err && (r->Err_0 matches ContractError::InvalidDepositDenom {
            expected,
            received,
        } && expected@ == deposit_denom@ && received@ == funds@[0].denom@),
        funds@.len() == 1 && funds@[0].denom@ == deposit_denom@ && funds@[0].amount == 0 ==> r == Err::<Coin, ContractError>(
            ContractError::InvalidDepositAmount,
        ),
        funds@.len() == 1 && funds@[0].denom@ == deposit_denom@ && funds@[0].amount != 0 ==> r is Ok && r->Ok_0.denom@
            == deposit_denom@ && r->Ok_0.amount == funds@[0].amount,
{
    if funds.len() == 0 {
        return Err(ContractError::NoFundsSent);
    }
    if funds.len() != 1 {
        return Err(ContractError::InvalidDepositAmount);
    }
    let coin = &funds[0];
    if !coin.denom.eq(&deposit_denom) {
        return Err(ContractError::InvalidDepositDenom { expected: deposit_denom, received: coin.denom.clone() });
    }
    if coin.amount == 0 {
        return Err(ContractError::InvalidDepositAmount);
    }
    Ok(Coin { denom: coin.denom.clone(), amount: coin.amount })
}

} // verus!
