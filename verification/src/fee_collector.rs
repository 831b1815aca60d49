//! The fee collector: it periodically mints maxBTC to itself so that a share
//! of the exchange-rate growth is retained as protocol fee.
use vstd::prelude::*;
use crate::address::{AddressInput, OwnershipError, assert_owner};
use crate::coin::Coin;
use crate::decimal::{
    Decimal, DECIMAL_FRACTIONAL, dec_to_amount as decimal_to_amount, div_atomics, from_atomics_spec,
    mul_atomics, pow10,
};

verus! {

/// The contract's configuration.
#[derive(Clone, Debug, PartialEq, Eq)]
pub struct Config {
    /// The address of the maxbtc-neutron-core contract.
    pub core_contract: String,
    /// The share of the exchange-rate gain collected as fee, strictly between 0 and 1.
    pub fee_apy_reduction_percentage: Decimal,
    /// The minimum period in seconds between fee collections.
    pub collection_period_seconds: u64,
    /// The denom of the token that is minted and claimed.
    pub fee_denom: String,
    /// The number of decimals of the maxBTC token.
    pub maxbtc_decimals: u32,
}

/// What the contract remembers of the last collection.
#[derive(Clone, Copy, Debug, PartialEq, Eq, Structural)]
pub struct State {
    /// The block time, in nanoseconds, of the last fee collection.
    pub last_collection_timestamp: u64,
    /// The exchange rate recorded at the last fee collection.
    pub last_exchange_rate: Decimal,
}

/// The errors of the fee collector.
#[derive(Clone, Debug, PartialEq, Eq)]
pub enum ContractError {
    Unauthorized,
    InvalidRecipient,
    CollectionPeriodNotElapsed,
    NegativeOrZeroApy { current_rate: Decimal, last_rate: Decimal },
    InvalidReplyId,
    InvalidZeroAmount,
    InvalidFeeReductionPercentage,
    InvalidDecimalConversion,
    DivideByZeroError,
    InvalidCollectionPeriod,
    /// An address that the chain does not accept.
    InvalidAddress,
    /// The sender is not the owner, or there is none.
    Ownership(OwnershipError),
}

/// Queries the fee collector answers.
#[derive(Clone, Copy, Debug, PartialEq, Eq, Structural)]
pub enum QueryMsg {
    /// The current configuration.
    Config,
    /// The current state.
    State,
    /// The ownership record.
    Ownership,
}

/// Queries the fee collector sends to the core contract.
#[derive(Clone, Copy, Debug, PartialEq, Eq, Structural)]
pub enum CoreQueryMsg {
    ExchangeRate,
}

/// Integer amount with `decimals` fractional digits of a decimal, or
/// `InvalidDecimalConversion` where `decimals` exceeds 18.
pub open spec fn dec_to_amount_spec(dec: Decimal, decimals: u32) -> Result<u128, ContractError> {
    if decimals > 18 {
        Err(ContractError::InvalidDecimalConversion)
    } else {
        Ok((dec.atomics as nat / pow10((18 - decimals) as nat)) as u128)
    }
}

/// Converts a decimal back into an integer amount with `decimals` fractional digits.
pub fn dec_to_amount(dec: Decimal, decimals: u32) -> (r: Result<u128, ContractError>)
    ensures
        r == dec_to_amount_spec(dec, decimals),
{
    if 18 < decimals {
        return Err(ContractError::InvalidDecimalConversion);
    }
    Ok(decimal_to_amount(dec, decimals))
}

/// The exchange rate at which the gain since `rate_old` is reduced by the
/// fee share: `rate_old + (rate_current - rate_old) * (1 - fee)`, in atomics.
pub open spec fn target_rate(rate_old: Decimal, rate_current: Decimal, fee: Decimal) -> int {
    rate_old.atomics + mul_atomics(
        rate_current.atomics - rate_old.atomics,
        DECIMAL_FRACTIONAL - fee.atomics,
    )
}

/// The decimal factor `rate_current / target - 1`, in atomics.
pub open spec fn dilution_factor(rate_old: Decimal, rate_current: Decimal, fee: Decimal) -> int {
    div_atomics(rate_current.atomics as int, target_rate(rate_old, rate_current, fee))
        - DECIMAL_FRACTIONAL
}

/// The fee amount as a decimal (atomics) once the supply is converted to a decimal.
pub open spec fn fee_decimal(
    rate_old: Decimal,
    rate_current: Decimal,
    supply_dec: u128,
    fee: Decimal,
) -> int {
    mul_atomics(dilution_factor(rate_old, rate_current, fee), supply_dec as int)
}

/// The inputs on which fee computation aborts: a fee share above one, or a
/// quotient or product beyond the decimal range.
pub open spec fn fee_to_mint_aborts(
    rate_old: Decimal,
    rate_current: Decimal,
    total_supply: u128,
    fee: Decimal,
    decimals: u32,
) -> bool {
    &&& rate_current.atomics > rate_old.atomics
    &&& {
        ||| fee.atomics > DECIMAL_FRACTIONAL
        ||| (target_rate(rate_old, rate_current, fee) != 0 && {
            ||| div_atomics(rate_current.atomics as int, target_rate(rate_old, rate_current, fee))
                > u128::MAX
            ||| match from_atomics_spec(total_supply, decimals) {
                Some(sd) => fee_decimal(rate_old, rate_current, sd, fee) > u128::MAX,
                None => false,
            }
        })
    }
}

/// The amount of fee tokens to mint so that the exchange-rate gain since
/// `rate_old` is reduced by the share `fee`: zero without gain, else
/// `supply * (rate_current / target - 1)` where
/// `target = rate_old + gain * (1 - fee)`, each step rounded down.
pub open spec fn fee_to_mint_spec(
    rate_old: Decimal,
    rate_current: Decimal,
    total_supply: u128,
    fee: Decimal,
    decimals: u32,
) -> Result<u128, ContractError> {
    if rate_current.atomics <= rate_old.atomics {
        Ok(0)
    } else if target_rate(rate_old, rate_current, fee) == 0 {
        Ok(0)
    } else {
        match from_atomics_spec(total_supply, decimals) {
            None => Err(ContractError::InvalidDecimalConversion),
            Some(sd) => dec_to_amount_spec(
                Decimal { atomics: fee_decimal(rate_old, rate_current, sd, fee) as u128 },
                decimals,
            ),
        }
    }
}

/// floor(a * b / 10^18) <= a when b <= 10^18.
pub proof fn lemma_mul_atomics_le(a: int, b: int)
    requires
        0 <= a,
        0 <= b <= DECIMAL_FRACTIONAL,
    ensures
        0 <= mul_atomics(a, b) <= a,
{
    assert(0 <= a * b <= a * (DECIMAL_FRACTIONAL as int)) by (nonlinear_arith)
        requires
            0 <= a,
            0 <= b <= DECIMAL_FRACTIONAL,
    ;
    assert((a * (DECIMAL_FRACTIONAL as int)) / (DECIMAL_FRACTIONAL as int) == a) by (nonlinear_arith);
    assert(mul_atomics(a, b) <= a) by (nonlinear_arith)
        requires
            0 <= a * b <= a * (DECIMAL_FRACTIONAL as int),
            (a * (DECIMAL_FRACTIONAL as int)) / (DECIMAL_FRACTIONAL as int) == a,
            mul_atomics(a, b) == (a * b) / (DECIMAL_FRACTIONAL as int),
    ;
    assert(mul_atomics(a, b) >= 0) by (nonlinear_arith)
        requires
            0 <= a * b,
            mul_atomics(a, b) == (a * b) / (DECIMAL_FRACTIONAL as int),
    ;
}

/// floor(a * 10^18 / b) >= 10^18 when 0 < b <= a.
pub proof fn lemma_div_atomics_ge_one(a: int, b: int)
    requires
        0 < b <= a,
    ensures
        div_atomics(a, b) >= DECIMAL_FRACTIONAL,
{
    let f = DECIMAL_FRACTIONAL as int;
    assert(a * f >= b * f) by (nonlinear_arith)
        requires
            0 < b <= a,
            f > 0,
    ;
    assert((b * f) / b == f) by (nonlinear_arith)
        requires
            b > 0,
    ;
    assert((a * f) / b >= (b * f) / b) by (nonlinear_arith)
        requires
            a * f >= b * f,
            b > 0,
    ;
}

/// Calculates the amount of fee tokens to mint to reduce the exchange-rate
/// gain since `rate_old` by the share `fee_reduction_percentage`.
pub fn calculate_fee_to_mint(
    rate_old: Decimal,
    rate_current: Decimal,
    total_supply_current: u128,
    fee_reduction_percentage: Decimal,
    maxbtc_decimals: u32,
) -> (r: Result<u128, ContractError>)
    requires
        !fee_to_mint_aborts(
            rate_old,
            rate_current,
            total_supply_current,
            fee_reduction_percentage,
            maxbtc_decimals,
        ),
    ensures
        r == fee_to_mint_spec(
            rate_old,
            rate_current,
            total_supply_current,
            fee_reduction_percentage,
            maxbtc_decimals,
        ),
{
    if rate_current.atomics() <= rate_old.atomics() {
        return Ok(0);
    }
    let gain = rate_current.sub(rate_old);
    let retained_gain_percentage = Decimal::one().sub(fee_reduction_percentage);
    proof {
        lemma_mul_atomics_le(gain.atomics as int, retained_gain_percentage.atomics as int);
    }
    let target_gain = gain.mul(retained_gain_percentage);
    let rate_target = rate_old.add(target_gain);
    if rate_target.is_zero() {
        return Ok(0);
    }
    let rate_ratio = rate_current.div(rate_target);
    proof {
        lemma_div_atomics_ge_one(rate_current.atomics as int, rate_target.atomics as int);
    }
    let factor = rate_ratio.sub(Decimal::one());
    let total_supply_dec = match Decimal::from_atomics(total_supply_current, maxbtc_decimals) {
        Some(d) => d,
        None => return Err(ContractError::InvalidDecimalConversion),
    };
    let fee_amount_decimal = factor.mul(total_supply_dec);
    dec_to_amount(fee_amount_decimal, maxbtc_decimals)
}

// ------------------------------------------------------------------------------------------------
// Handlers
// ------------------------------------------------------------------------------------------------

/// Nanoseconds in a second.
pub const NANOS_PER_SECOND: u64 = 1_000_000_000u64;

/// A fee share is accepted strictly between zero and one.
pub open spec fn share_ok(p: Decimal) -> bool {
    0 < p.atomics < DECIMAL_FRACTIONAL
}

/// What the fee collector is instantiated with.
#[derive(Clone, Debug, PartialEq, Eq)]
pub struct InstantiateMsg {
    pub owner: AddressInput,
    pub core_contract: AddressInput,
    pub fee_apy_reduction_percentage: Decimal,
    pub collection_period_seconds: u64,
    pub fee_denom: String,
    pub maxbtc_decimals: u32,
}

/// Instantiates the fee collector at block time `now` (nanoseconds), with
/// the exchange rate the core contract reports: refused for an invalid
/// owner, then for a fee share outside (0, 1), then for an invalid core
/// contract; else the configuration from the message and a state that
/// starts counting from now at that rate.
pub fn instantiate(m: &InstantiateMsg, now: u64, initial_rate: Decimal) -> (r: Result<(Config, State), ContractError>)
    ensures
        !m.owner.valid ==> r == Err::<(Config, State), ContractError>(ContractError::InvalidAddress),
        m.owner.valid && !share_ok(m.fee_apy_reduction_percentage) ==> r == Err::<(Config, State), ContractError>(
            ContractError::InvalidFeeReductionPercentage,
        ),
        m.owner.valid && share_ok(m.fee_apy_reduction_percentage) && !m.core_contract.valid ==> r == Err::<
            (Config, State),
            ContractError,
        >(ContractError::InvalidAddress),
        r is Ok <==> m.owner.valid && share_ok(m.fee_apy_reduction_percentage) && m.core_contract.valid,
        r is Ok ==> {
            let (c, st) = r->Ok_0;
            &&& c.core_contract@ == m.core_contract.address@
            &&& c.fee_apy_reduction_percentage == m.fee_apy_reduction_percentage
            &&& c.collection_period_seconds == m.collection_period_seconds
            &&& c.fee_denom@ == m.fee_denom@
            &&& c.maxbtc_decimals == m.maxbtc_decimals
            &&& st == (State { last_collection_timestamp: now, last_exchange_rate: initial_rate })
        },
{
    if !m.owner.valid {
        return Err(ContractError::InvalidAddress);
    }
    let p = m.fee_apy_reduction_percentage;
    if p.atomics >= DECIMAL_FRACTIONAL || p.atomics == 0 {
        return Err(ContractError::InvalidFeeReductionPercentage);
    }
    if !m.core_contract.valid {
        return Err(ContractError::InvalidAddress);
    }
    let c = Config {
        core_contract: m.core_contract.address.clone(),
        fee_apy_reduction_percentage: p,
        collection_period_seconds: m.collection_period_seconds,
        fee_denom: m.fee_denom.clone(),
        maxbtc_decimals: m.maxbtc_decimals,
    };
    Ok((c, State { last_collection_timestamp: now, last_exchange_rate: initial_rate }))
}

/// The inputs on which collection aborts: the next collection time does not
/// fit the clock, or the fee computation overflows.
pub open spec fn collect_fee_aborts(cfg: Config, st: State, now: u64, current_rate: Decimal, total_supply: u128) -> bool {
    ||| st.last_collection_timestamp + cfg.collection_period_seconds * NANOS_PER_SECOND > u64::MAX
    ||| (now >= st.last_collection_timestamp + cfg.collection_period_seconds * NANOS_PER_SECOND
        && current_rate.atomics > st.last_exchange_rate.atomics && fee_to_mint_aborts(
        st.last_exchange_rate,
        current_rate,
        total_supply,
        cfg.fee_apy_reduction_percentage,
        cfg.maxbtc_decimals,
    ))
}

/// What a collection decided: the state to record once the core contract
/// confirms the mint, and the fee to mint, if any.
pub struct CollectResult {
    pub state: State,
    /// The fee to mint through the core contract; `None` when it rounded to zero.
    pub mint: Option<Coin>,
}

/// Collects the fee at block time `now` (nanoseconds), given the exchange
/// rate the core contract reports and the supply of the fee denom: refused
/// before the collection period has passed since the last collection, and
/// without a gain of the exchange rate; a fee that rounds to zero mints
/// nothing and keeps the state; else the fee of `calculate_fee_to_mint` is
/// requested from the core contract, and the state recording now and the
/// current rate is kept pending until the core contract confirms the mint
/// (see [`reply_collect_fee`]).
pub fn execute_collect_fee(cfg: &Config, st: &State, now: u64, current_rate: Decimal, total_supply: u128) -> (r: Result<CollectResult, ContractError>)
    requires
        !collect_fee_aborts(*cfg, *st, now, current_rate, total_supply),
    ensures
        now < st.last_collection_timestamp + cfg.collection_period_seconds * NANOS_PER_SECOND ==> r
            == Err::<CollectResult, ContractError>(ContractError::CollectionPeriodNotElapsed),
        now >= st.last_collection_timestamp + cfg.collection_period_seconds * NANOS_PER_SECOND
            && current_rate.atomics <= st.last_exchange_rate.atomics ==> r == Err::<CollectResult, ContractError>(
            ContractError::NegativeOrZeroApy { current_rate, last_rate: st.last_exchange_rate },
        ),
        now >= st.last_collection_timestamp + cfg.collection_period_seconds * NANOS_PER_SECOND
            && current_rate.atomics > st.last_exchange_rate.atomics ==> match fee_to_mint_spec(
            st.last_exchange_rate,
            current_rate,
            total_supply,
            cfg.fee_apy_reduction_percentage,
            cfg.maxbtc_decimals,
        ) {
            Err(e) => r == Err::<CollectResult, ContractError>(e),
            Ok(fee) => r is Ok && (if fee == 0 {
                r->Ok_0.state == *st && r->Ok_0.mint is None
            } else {
                &&& r->Ok_0.state == (State { last_collection_timestamp: now, last_exchange_rate: current_rate })
                &&& r->Ok_0.mint is Some
                &&& r->Ok_0.mint.unwrap().amount == fee
                &&& r->Ok_0.mint.unwrap().denom@ == cfg.fee_denom@
            }),
        },
{
    let next = st.last_collection_timestamp + cfg.collection_period_seconds * NANOS_PER_SECOND;
    if now < next {
        return Err(ContractError::CollectionPeriodNotElapsed);
    }
    if current_rate.atomics <= st.last_exchange_rate.atomics {
        return Err(ContractError::NegativeOrZeroApy { current_rate, last_rate: st.last_exchange_rate });
    }
    let fee = match calculate_fee_to_mint(
        st.last_exchange_rate,
        current_rate,
        total_supply,
        cfg.fee_apy_reduction_percentage,
        cfg.maxbtc_decimals,
    ) {
        Ok(f) => f,
        Err(e) => return Err(e),
    };
    if fee == 0 {
        return Ok(CollectResult { state: *st, mint: None });
    }
    Ok(
        CollectResult {
            state: State { last_collection_timestamp: now, last_exchange_rate: current_rate },
            mint: Some(Coin { denom: cfg.fee_denom.clone(), amount: fee }),
        },
    )
}

/// The reply id under which the core contract confirms a fee mint.
pub const COLLECT_FEE_REPLY_ID: u64 = 1;

/// The second step of a collection, on the core contract's reply to the fee
/// mint: refused for another reply id; once the mint succeeded the pending
/// state is recorded; if it failed, or nothing is pending, the state stays
/// as it was.
pub fn reply_collect_fee(reply_id: u64, current: &State, pending: &Option<State>, mint_succeeded: bool) -> (r: Result<State, ContractError>)
    ensures
        reply_id != COLLECT_FEE_REPLY_ID ==> r == Err::<State, ContractError>(ContractError::InvalidReplyId),
        reply_id == COLLECT_FEE_REPLY_ID ==> r == Ok::<State, ContractError>(
            match pending {
                Some(p) => if mint_succeeded { *p } else { *current },
                None => *current,
            },
        ),
{
    if reply_id != COLLECT_FEE_REPLY_ID {
        return Err(ContractError::InvalidReplyId);
    }
    Ok(
        match pending {
            Some(p) => if mint_succeeded {
                *p
            } else {
                *current
            },
            None => *current,
        },
    )
}

/// The owner's claim of collected fees: refused to anyone but the owner,
/// for a zero amount, and for an invalid recipient; else the recipient and
/// the coin to send.
pub fn execute_claim(owner: &Option<String>, sender: &String, amount: &Coin, recipient: &AddressInput) -> (r: Result<(String, Coin), ContractError>)
    ensures
        owner is None ==> r == Err::<(String, Coin), ContractError>(ContractError::Ownership(OwnershipError::NoOwner)),
        owner is Some && owner.unwrap()@ != sender@ ==> r == Err::<(String, Coin), ContractError>(
            ContractError::Ownership(OwnershipError::NotOwner),
        ),
        owner is Some && owner.unwrap()@ == sender@ && amount.amount == 0 ==> r == Err::<(String, Coin), ContractError>(
            ContractError::InvalidZeroAmount,
        ),
        owner is Some && owner.unwrap()@ == sender@ && amount.amount != 0 && !recipient.valid ==> r == Err::<
            (String, Coin),
            ContractError,
        >(ContractError::InvalidAddress),
        r is Ok <==> owner is Some && owner.unwrap()@ == sender@ && amount.amount != 0 && recipient.valid,
        r is Ok ==> r->Ok_0.0@ == recipient.address@ && r->Ok_0.1.amount == amount.amount && r->Ok_0.1.denom@
            == amount.denom@,
{
    match assert_owner(owner, sender) {
        Ok(()) => {},
        Err(e) => return Err(ContractError::Ownership(e)),
    }
    if amount.amount == 0 {
        return Err(ContractError::InvalidZeroAmount);
    }
    if !recipient.valid {
        return Err(ContractError::InvalidAddress);
    }
    Ok((recipient.address.clone(), Coin { denom: amount.denom.clone(), amount: amount.amount }))
}

/// A new core contract, with the exchange rate it reports.
#[derive(Clone, Debug, PartialEq, Eq)]
pub struct CoreContractUpdate {
    pub address: AddressInput,
    pub exchange_rate: Decimal,
}

/// The owner's update of the configuration at block time `now`
/// (nanoseconds). Refused to anyone but the owner, for an invalid new core
/// contract, then for a fee share outside (0, 1). A new core contract
/// restarts the state from now at the rate it reports; a new period is
/// given in seconds and stored as given.
pub fn execute_update_config(
    cfg: &Config,
    st: &State,
    owner: &Option<String>,
    sender: &String,
    now: u64,
    core_contract: &Option<CoreContractUpdate>,
    fee_apy_reduction_percentage: Option<Decimal>,
    collection_period_seconds: Option<u64>,
) -> (r: Result<(Config, State), ContractError>)
    ensures
        owner is None ==> r == Err::<(Config, State), ContractError>(ContractError::Ownership(OwnershipError::NoOwner)),
        owner is Some && owner.unwrap()@ != sender@ ==> r == Err::<(Config, State), ContractError>(
            ContractError::Ownership(OwnershipError::NotOwner),
        ),
        owner is Some && owner.unwrap()@ == sender@ && core_contract is Some && !core_contract.unwrap().address.valid
            ==> r == Err::<(Config, State), ContractError>(ContractError::InvalidAddress),
        owner is Some && owner.unwrap()@ == sender@ && (core_contract is Some ==> core_contract.unwrap().address.valid)
            && fee_apy_reduction_percentage is Some && !share_ok(fee_apy_reduction_percentage.unwrap()) ==> r
            == Err::<(Config, State), ContractError>(ContractError::InvalidFeeReductionPercentage),
        r is Ok <==> owner is Some && owner.unwrap()@ == sender@ && (core_contract is Some
            ==> core_contract.unwrap().address.valid) && (fee_apy_reduction_percentage is Some ==> share_ok(
            fee_apy_reduction_percentage.unwrap(),
        )),
        r is Ok ==> {
            let (c, s) = r->Ok_0;
            &&& c.core_contract@ == (match core_contract {
                Some(u) => u.address.address@,
                None => cfg.core_contract@,
            })
            &&& s == (match core_contract {
                Some(u) => State { last_collection_timestamp: now, last_exchange_rate: u.exchange_rate },
                None => *st,
            })
            &&& c.fee_apy_reduction_percentage == (match fee_apy_reduction_percentage {
                Some(p) => p,
                None => cfg.fee_apy_reduction_percentage,
            })
            &&& c.collection_period_seconds == (match collection_period_seconds {
                Some(v) => v,
                None => cfg.collection_period_seconds,
            })
            &&& c.fee_denom@ == cfg.fee_denom@
            &&& c.maxbtc_decimals == cfg.maxbtc_decimals
        },
{
    match assert_owner(owner, sender) {
        Ok(()) => {},
        Err(e) => return Err(ContractError::Ownership(e)),
    }
    let mut core = cfg.core_contract.clone();
    let mut state = *st;
    if let Some(u) = core_contract {
        if !u.address.valid {
            return Err(ContractError::InvalidAddress);
        }
        core = u.address.address.clone();
        state = State { last_collection_timestamp: now, last_exchange_rate: u.exchange_rate };
    }
    let mut share = cfg.fee_apy_reduction_percentage;
    if let Some(p) = fee_apy_reduction_percentage {
        if p.atomics >= DECIMAL_FRACTIONAL || p.atomics == 0 {
            return Err(ContractError::InvalidFeeReductionPercentage);
        }
        share = p;
    }
    let period = match collection_period_seconds {
        Some(v) => v,
        None => cfg.collection_period_seconds,
    };
    Ok(
        (
            Config {
                core_contract: core,
                fee_apy_reduction_percentage: share,
                collection_period_seconds: period,
                fee_denom: cfg.fee_denom.clone(),
                maxbtc_decimals: cfg.maxbtc_decimals,
            },
            state,
        ),
    )
}

} // verus!
