//! The liquidation buffer: it keeps BTC on offer in a limit order of the
//! DEX at the exchange rate plus a surcharge. Each run cancels its orders,
//! burns the maxBTC the orders bought (at the exchange rate, the surcharge
//! going to the treasury) and places one new order with all its BTC.
//!
//! The balances and the outcome of cancelling each order come from bank
//! and DEX queries that the caller makes.
use vstd::prelude::*;
use crate::coin::Coin;
use crate::decimal::{Decimal, DECIMAL_FRACTIONAL, div_atomics, fits_u128, from_ratio_spec, mul_atomics};
use crate::denom::{parse_u128, parse_u128_spec};

verus! {

/// The buffer's configuration.
#[derive(Clone, Debug, PartialEq, Eq)]
pub struct Config {
    /// The core contract, which alone may claw BTC back.
    pub core_contract_address: String,
    pub btc_denom: String,
    pub maxbtc_denom: String,
    /// The surcharge over the exchange rate, in basis points (10000 = 100%).
    pub price_multiplier_basis_points: u128,
    /// The address allowed to change the configuration.
    pub authority: String,
    /// Receives the maxBTC that is not burned.
    pub treasury: String,
}

/// The changes the authority asks for; an absent field stays as it is.
#[derive(Clone, Debug, PartialEq, Eq)]
pub struct UpdateConfig {
    pub core_contract_address: Option<String>,
    pub btc_denom: Option<String>,
    pub maxbtc_denom: Option<String>,
    pub price_multiplier_basis_points: Option<u128>,
    pub authority: Option<String>,
    pub treasury: Option<String>,
}

/// The errors of the buffer.
#[derive(Clone, Copy, Debug, PartialEq, Eq, Structural)]
pub enum ContractError {
    Unauthorized,
}

/// Queries the buffer answers.
#[derive(Clone, Copy, Debug, PartialEq, Eq, Structural)]
pub enum QueryMsg {
    /// The BTC it holds and has on offer.
    GetBTCBalance,
    /// The maxBTC it holds and its orders bought.
    GetMaxBTCBalance,
}

/// Queries the buffer sends to the core contract.
#[derive(Clone, Copy, Debug, PartialEq, Eq, Structural)]
pub enum CoreQueryMsg {
    ExchangeRate,
}

/// The price a new order is placed at.
#[derive(Clone, Copy, Debug, PartialEq, Eq, Structural)]
pub enum SellPrice {
    /// A decimal price.
    Rate(Decimal),
}

/// A message the buffer sends.
#[derive(Clone, Debug, PartialEq, Eq)]
pub enum LbMsg {
    /// Cancel the limit order of the tranche.
    CancelLimitOrder { tranche_key: String },
    /// Burn tokens held by this contract.
    Burn { amount: Coin },
    /// A bank transfer from this contract.
    BankSend { to_address: String, amount: Coin },
    /// Place a good-til-cancelled order selling `token_in` for `token_out`.
    PlaceLimitOrder { token_in: String, token_out: String, amount_in: u128, limit_sell_price: SellPrice },
}

/// A coin as the DEX reports it, its amount a decimal string.
#[derive(Clone, Debug, PartialEq, Eq)]
pub struct DexCoin {
    pub denom: String,
    pub amount: String,
}

/// One of the buffer's orders and what cancelling it would return.
#[derive(Clone, Debug, PartialEq, Eq)]
pub struct CancelSimulation {
    pub tranche_key: String,
    /// The tokens the order bought.
    pub taker_coin_out: Option<DexCoin>,
    /// The tokens the order still offers.
    pub maker_coin_out: Option<DexCoin>,
}

// ------------------------------------------------------------------------------------------------
// Prices
// ------------------------------------------------------------------------------------------------

/// The atomics of the price multiplier `1 + bp / 10000`.
pub open spec fn multiplier_atomics(bp: u128) -> int {
    DECIMAL_FRACTIONAL + bp * 100_000_000_000_000
}

/// The price at which the buffer sells BTC: the exchange rate times
/// `1 + bp / 10000`; refused (as `Unauthorized`) where a step leaves the
/// decimal range.
pub open spec fn deposit_price_spec(er: Decimal, bp: u128) -> Result<Decimal, ContractError> {
    if !fits_u128(bp * DECIMAL_FRACTIONAL) || !fits_u128(mul_atomics(er.atomics as int, multiplier_atomics(bp))) {
        Err(ContractError::Unauthorized)
    } else {
        Ok(Decimal { atomics: mul_atomics(er.atomics as int, multiplier_atomics(bp)) as u128 })
    }
}

/// The exchange rate with the surcharge of `price_multiplier_basis_points`.
pub fn get_deposit_price(exchange_rate: Decimal, price_multiplier_basis_points: u128) -> (r: Result<Decimal, ContractError>)
    ensures
        r == deposit_price_spec(exchange_rate, price_multiplier_basis_points),
{
    proof {
        crate::decimal::lemma_pow10_bound(17);
        reveal_with_fuel(crate::decimal::pow10, 19);
    }
    let bp = match Decimal::from_atomics(price_multiplier_basis_points, 0) {
        Some(d) => d,
        None => return Err(ContractError::Unauthorized),
    };
    let ten_thousand = Decimal::raw(10_000_000_000_000_000_000_000u128);
    let surcharge = match bp.checked_div(ten_thousand) {
        Some(d) => d,
        None => return Err(ContractError::Unauthorized),
    };
    proof {
        let a = bp.atomics as int;
        assert(a == price_multiplier_basis_points * DECIMAL_FRACTIONAL);
        assert(div_atomics(a, 10_000_000_000_000_000_000_000int) == price_multiplier_basis_points * 100_000_000_000_000)
            by (nonlinear_arith)
            requires
                a == price_multiplier_basis_points * 1_000_000_000_000_000_000int,
        ;
    }
    let multiplier = match Decimal::one().checked_add(surcharge) {
        Some(d) => d,
        None => return Err(ContractError::Unauthorized),
    };
    match exchange_rate.checked_mul(multiplier) {
        Some(d) => Ok(d),
        None => Err(ContractError::Unauthorized),
    }
}

/// The maxBTC of `amount` that is burned when it was bought at `new_price`
/// while worth `original_price`: `amount * (original / new)`, each step
/// rounded down.
pub open spec fn burn_amount_spec(amount: u128, original_price: Decimal, new_price: Decimal) -> int {
    mul_atomics(amount * DECIMAL_FRACTIONAL, from_ratio_spec(original_price.atomics, new_price.atomics).unwrap() as int)
        / (DECIMAL_FRACTIONAL as int)
}

/// Whether the burn computation stays in range and burns no more than the
/// amount.
pub open spec fn burn_ok(amount: u128, original_price: Decimal, new_price: Decimal) -> bool {
    &&& from_ratio_spec(original_price.atomics, new_price.atomics) is Some
    &&& fits_u128(amount * DECIMAL_FRACTIONAL)
    &&& fits_u128(mul_atomics(amount * DECIMAL_FRACTIONAL, from_ratio_spec(original_price.atomics, new_price.atomics).unwrap() as int))
    &&& burn_amount_spec(amount, original_price, new_price) <= amount
}

/// Burns the share of `max_btc_amount` that the exchange rate is worth and
/// sends the rest, the surcharge, to `beneficiary`: the burn first, then
/// the transfer. Refused (as `Unauthorized`) where a step leaves the
/// decimal range or more than the amount would burn.
pub fn get_burn_and_refund_messages(
    max_btc_amount: u128,
    original_price: Decimal,
    new_price: Decimal,
    beneficiary: &String,
    max_btc_denom: &String,
) -> (r: Result<Vec<LbMsg>, ContractError>)
    ensures
        r is Ok <==> burn_ok(max_btc_amount, original_price, new_price),
        r is Err ==> r == Err::<Vec<LbMsg>, ContractError>(ContractError::Unauthorized),
        r is Ok ==> {
            let msgs = r->Ok_0@;
            let burn = burn_amount_spec(max_btc_amount, original_price, new_price);
            &&& msgs.len() == 2
            &&& msgs[0] matches LbMsg::Burn { amount } && amount.amount == burn && amount.denom@ == max_btc_denom@
            &&& msgs[1] matches LbMsg::BankSend { to_address, amount } && to_address@ == beneficiary@
                && amount.amount == max_btc_amount - burn && amount.denom@ == max_btc_denom@
        },
{
    proof {
        reveal_with_fuel(crate::decimal::pow10, 19);
    }
    let divergence = match original_price.checked_div(new_price) {
        Some(d) => d,
        None => return Err(ContractError::Unauthorized),
    };
    let amount = match Decimal::from_atomics(max_btc_amount, 0) {
        Some(d) => d,
        None => return Err(ContractError::Unauthorized),
    };
    let burn = match amount.checked_mul(divergence) {
        Some(d) => d.to_uint_floor(),
        None => return Err(ContractError::Unauthorized),
    };
    if burn > max_btc_amount {
        return Err(ContractError::Unauthorized);
    }
    let ret = max_btc_amount - burn;
    let mut msgs: Vec<LbMsg> = Vec::new();
    msgs.push(LbMsg::Burn { amount: Coin { denom: max_btc_denom.clone(), amount: burn } });
    msgs.push(
        LbMsg::BankSend {
            to_address: beneficiary.clone(),
            amount: Coin { denom: max_btc_denom.clone(), amount: ret },
        },
    );
    Ok(msgs)
}

// ------------------------------------------------------------------------------------------------
// Balances after cancelling the orders
// ------------------------------------------------------------------------------------------------

/// The amount of a DEX coin, zero where it does not parse.
pub open spec fn parsed(c: DexCoin) -> nat {
    match parse_u128_spec(c.amount@) {
        Some(v) => v as nat,
        None => 0,
    }
}

/// The amount of an optional DEX coin of `denom`, else zero.
pub open spec fn amount_of(c: Option<DexCoin>, denom: Seq<char>) -> nat {
    match c {
        Some(x) => if x.denom@ == denom {
            parsed(x)
        } else {
            0
        },
        None => 0,
    }
}

/// The BTC that cancelling the orders returns: what they still offer.
pub open spec fn cancel_btc(sims: Seq<CancelSimulation>, btc_denom: Seq<char>) -> nat
    decreases sims.len(),
{
    if sims.len() == 0 {
        0
    } else {
        cancel_btc(sims.drop_last(), btc_denom) + amount_of(sims.last().maker_coin_out, btc_denom)
    }
}

/// The maxBTC that cancelling the orders returns: what they bought.
pub open spec fn cancel_maxbtc(sims: Seq<CancelSimulation>, maxbtc_denom: Seq<char>) -> nat
    decreases sims.len(),
{
    if sims.len() == 0 {
        0
    } else {
        cancel_maxbtc(sims.drop_last(), maxbtc_denom) + amount_of(sims.last().taker_coin_out, maxbtc_denom)
    }
}

/// The orders and balances of a run or a claw-back: the cancel messages and
/// the BTC and maxBTC held once they execute.
pub struct CancelOutcome {
    pub msgs: Vec<LbMsg>,
    pub btc: u128,
    pub maxbtc: u128,
}

/// The sums fit: the balances plus what cancelling returns stay in 128 bits.
pub open spec fn cancel_fits(balance_btc: u128, balance_maxbtc: u128, sims: Seq<CancelSimulation>, btc_denom: Seq<char>, maxbtc_denom: Seq<char>) -> bool {
    balance_btc + cancel_btc(sims, btc_denom) <= u128::MAX && balance_maxbtc + cancel_maxbtc(sims, maxbtc_denom) <= u128::MAX
}

proof fn lemma_cancel_prefix(sims: Seq<CancelSimulation>, i: int, btc_denom: Seq<char>, maxbtc_denom: Seq<char>)
    requires
        0 <= i <= sims.len(),
    ensures
        cancel_btc(sims.take(i), btc_denom) <= cancel_btc(sims, btc_denom),
        cancel_maxbtc(sims.take(i), maxbtc_denom) <= cancel_maxbtc(sims, maxbtc_denom),
    decreases sims.len(),
{
    if i < sims.len() {
        assert(sims.drop_last().take(i) =~= sims.take(i));
        lemma_cancel_prefix(sims.drop_last(), i, btc_denom, maxbtc_denom);
    } else {
        assert(sims.take(i) =~= sims);
    }
}

fn dex_amount(c: &Option<DexCoin>, denom: &String) -> (a: u128)
    ensures
        a == amount_of(*c, denom@),
{
    match c {
        Some(x) => {
            if x.denom.eq(denom) {
                match parse_u128(x.amount.as_str()) {
                    Some(v) => v,
                    None => 0,
                }
            } else {
                0
            }
        },
        None => 0,
    }
}

/// One cancel message per order, in order, and the balances once they
/// execute: the BTC balance plus what the orders still offer, the maxBTC
/// balance plus what they bought (amounts that do not parse count zero).
pub fn get_cancel_messages(
    balance_btc: u128,
    balance_maxbtc: u128,
    sims: &Vec<CancelSimulation>,
    btc_denom: &String,
    maxbtc_denom: &String,
) -> (r: CancelOutcome)
    requires
        cancel_fits(balance_btc, balance_maxbtc, sims@, btc_denom@, maxbtc_denom@),
    ensures
        r.btc == balance_btc + cancel_btc(sims@, btc_denom@),
        r.maxbtc == balance_maxbtc + cancel_maxbtc(sims@, maxbtc_denom@),
        r.msgs@.len() == sims@.len(),
        forall|i: int| 0 <= i < sims@.len() ==> (#[trigger] r.msgs@[i] matches LbMsg::CancelLimitOrder { tranche_key }
            && tranche_key@ == sims@[i].tranche_key@),
{
    let mut btc = balance_btc;
    let mut maxbtc = balance_maxbtc;
    let mut msgs: Vec<LbMsg> = Vec::new();
    let mut i: usize = 0;
    while i < sims.len()
        invariant
            i <= sims@.len(),
            cancel_fits(balance_btc, balance_maxbtc, sims@, btc_denom@, maxbtc_denom@),
            btc == balance_btc + cancel_btc(sims@.take(i as int), btc_denom@),
            maxbtc == balance_maxbtc + cancel_maxbtc(sims@.take(i as int), maxbtc_denom@),
            msgs@.len() == i,
            forall|j: int| 0 <= j < i ==> (#[trigger] msgs@[j] matches LbMsg::CancelLimitOrder { tranche_key }
                && tranche_key@ == sims@[j].tranche_key@),
        decreases sims@.len() - i,
    {
        let s = &sims[i];
        msgs.push(LbMsg::CancelLimitOrder { tranche_key: s.tranche_key.clone() });
        proof {
            assert(sims@.take(i as int + 1).drop_last() =~= sims@.take(i as int));
            lemma_cancel_prefix(sims@, i as int + 1, btc_denom@, maxbtc_denom@);
        }
        let t = dex_amount(&s.taker_coin_out, maxbtc_denom);
        let m = dex_amount(&s.maker_coin_out, btc_denom);
        maxbtc = maxbtc + t;
        btc = btc + m;
        i = i + 1;
    }
    proof {
        assert(sims@.take(i as int) =~= sims@);
    }
    CancelOutcome { msgs, btc, maxbtc }
}

/// The BTC of an optional coin for the virtual balance: a coin of the BTC
/// denom that is not the maxBTC denom.
pub open spec fn btc_unless_maxbtc(c: Option<DexCoin>, btc_denom: Seq<char>, maxbtc_denom: Seq<char>) -> nat {
    match c {
        Some(x) => if x.denom@ == maxbtc_denom {
            0
        } else if x.denom@ == btc_denom {
            parsed(x)
        } else {
            0
        },
        None => 0,
    }
}

/// The maxBTC of an optional coin for the virtual balance: a coin of the
/// maxBTC denom that is not the BTC denom.
pub open spec fn maxbtc_unless_btc(c: Option<DexCoin>, btc_denom: Seq<char>, maxbtc_denom: Seq<char>) -> nat {
    match c {
        Some(x) => if x.denom@ == btc_denom {
            0
        } else if x.denom@ == maxbtc_denom {
            parsed(x)
        } else {
            0
        },
        None => 0,
    }
}

/// The BTC that withdrawing every order would return, whichever side it sits on.
pub open spec fn virtual_btc(sims: Seq<CancelSimulation>, btc_denom: Seq<char>, maxbtc_denom: Seq<char>) -> nat
    decreases sims.len(),
{
    if sims.len() == 0 {
        0
    } else {
        virtual_btc(sims.drop_last(), btc_denom, maxbtc_denom) + btc_unless_maxbtc(
            sims.last().taker_coin_out,
            btc_denom,
            maxbtc_denom,
        ) + amount_of(sims.last().maker_coin_out, btc_denom)
    }
}

/// The maxBTC that withdrawing every order would return, whichever side it sits on.
pub open spec fn virtual_maxbtc(sims: Seq<CancelSimulation>, btc_denom: Seq<char>, maxbtc_denom: Seq<char>) -> nat
    decreases sims.len(),
{
    if sims.len() == 0 {
        0
    } else {
        virtual_maxbtc(sims.drop_last(), btc_denom, maxbtc_denom) + amount_of(sims.last().taker_coin_out, maxbtc_denom)
            + maxbtc_unless_btc(sims.last().maker_coin_out, btc_denom, maxbtc_denom)
    }
}

proof fn lemma_virtual_prefix(sims: Seq<CancelSimulation>, i: int, btc_denom: Seq<char>, maxbtc_denom: Seq<char>)
    requires
        0 <= i <= sims.len(),
    ensures
        virtual_btc(sims.take(i), btc_denom, maxbtc_denom) <= virtual_btc(sims, btc_denom, maxbtc_denom),
        virtual_maxbtc(sims.take(i), btc_denom, maxbtc_denom) <= virtual_maxbtc(sims, btc_denom, maxbtc_denom),
    decreases sims.len(),
{
    if i < sims.len() {
        assert(sims.drop_last().take(i) =~= sims.take(i));
        lemma_virtual_prefix(sims.drop_last(), i, btc_denom, maxbtc_denom);
    } else {
        assert(sims.take(i) =~= sims);
    }
}

/// The buffer's balances as if every order were withdrawn: what it holds
/// plus what its orders would return, counted by denom.
pub fn get_virtual_contract_balance(
    balance_btc: u128,
    balance_maxbtc: u128,
    sims: &Vec<CancelSimulation>,
    btc_denom: &String,
    maxbtc_denom: &String,
) -> (r: (u128, u128))
    requires
        balance_btc + virtual_btc(sims@, btc_denom@, maxbtc_denom@) <= u128::MAX,
        balance_maxbtc + virtual_maxbtc(sims@, btc_denom@, maxbtc_denom@) <= u128::MAX,
    ensures
        r.0 == balance_btc + virtual_btc(sims@, btc_denom@, maxbtc_denom@),
        r.1 == balance_maxbtc + virtual_maxbtc(sims@, btc_denom@, maxbtc_denom@),
{
    let mut btc = balance_btc;
    let mut maxbtc = balance_maxbtc;
    let mut i: usize = 0;
    while i < sims.len()
        invariant
            i <= sims@.len(),
            balance_btc + virtual_btc(sims@, btc_denom@, maxbtc_denom@) <= u128::MAX,
            balance_maxbtc + virtual_maxbtc(sims@, btc_denom@, maxbtc_denom@) <= u128::MAX,
            btc == balance_btc + virtual_btc(sims@.take(i as int), btc_denom@, maxbtc_denom@),
            maxbtc == balance_maxbtc + virtual_maxbtc(sims@.take(i as int), btc_denom@, maxbtc_denom@),
        decreases sims@.len() - i,
    {
        let s = &sims[i];
        proof {
            assert(sims@.take(i as int + 1).drop_last() =~= sims@.take(i as int));
            lemma_virtual_prefix(sims@, i as int + 1, btc_denom@, maxbtc_denom@);
        }
        match &s.taker_coin_out {
            Some(x) => {
                if x.denom.eq(maxbtc_denom) {
                    maxbtc = maxbtc + dex_amount(&s.taker_coin_out, maxbtc_denom);
                } else if x.denom.eq(btc_denom) {
                    btc = btc + dex_amount(&s.taker_coin_out, btc_denom);
                }
            },
            None => {},
        }
        match &s.maker_coin_out {
            Some(x) => {
                if x.denom.eq(btc_denom) {
                    btc = btc + dex_amount(&s.maker_coin_out, btc_denom);
                } else if x.denom.eq(maxbtc_denom) {
                    maxbtc = maxbtc + dex_amount(&s.maker_coin_out, maxbtc_denom);
                }
            },
            None => {},
        }
        i = i + 1;
    }
    proof {
        assert(sims@.take(i as int) =~= sims@);
    }
    (btc, maxbtc)
}

// ------------------------------------------------------------------------------------------------
// Handlers
// ------------------------------------------------------------------------------------------------

/// The messages of a run: cancel every order, burn and refund the maxBTC
/// bought (when there is some), and place one order selling all the BTC at
/// the deposit price.
pub open spec fn run_sequence_ok(cfg: Config, er: Decimal, balance_btc: u128, balance_maxbtc: u128, sims: Seq<CancelSimulation>, msgs: Seq<LbMsg>) -> bool {
    let price = deposit_price_spec(er, cfg.price_multiplier_basis_points)->Ok_0;
    let btc = balance_btc + cancel_btc(sims, cfg.btc_denom@);
    let maxbtc = balance_maxbtc + cancel_maxbtc(sims, cfg.maxbtc_denom@);
    let k = sims.len() as int;
    let b = if maxbtc > 0 { 2int } else { 0int };
    &&& msgs.len() == k + b + 1
    &&& forall|i: int| 0 <= i < k ==> (#[trigger] msgs[i] matches LbMsg::CancelLimitOrder { tranche_key }
        && tranche_key@ == sims[i].tranche_key@)
    &&& maxbtc > 0 ==> {
        let burn = burn_amount_spec(maxbtc as u128, er, price);
        &&& msgs[k] matches LbMsg::Burn { amount } && amount.amount == burn && amount.denom@ == cfg.maxbtc_denom@
        &&& msgs[k + 1] matches LbMsg::BankSend { to_address, amount } && to_address@ == cfg.treasury@
            && amount.amount == maxbtc - burn && amount.denom@ == cfg.maxbtc_denom@
    }
    &&& msgs[k + b] matches LbMsg::PlaceLimitOrder { token_in, token_out, amount_in, limit_sell_price }
        && token_in@ == cfg.btc_denom@ && token_out@ == cfg.maxbtc_denom@ && amount_in == btc
        && limit_sell_price == SellPrice::Rate(price)
}

/// Runs the sequence at the core contract's exchange rate `exchange_rate`:
/// refused (as `Unauthorized`) where the deposit price or the burn is out
/// of range; else the messages of `run_sequence_ok`.
pub fn run_sequence(
    cfg: &Config,
    exchange_rate: Decimal,
    balance_btc: u128,
    balance_maxbtc: u128,
    sims: &Vec<CancelSimulation>,
) -> (r: Result<Vec<LbMsg>, ContractError>)
    requires
        cancel_fits(balance_btc, balance_maxbtc, sims@, cfg.btc_denom@, cfg.maxbtc_denom@),
    ensures
        r is Ok <==> deposit_price_spec(exchange_rate, cfg.price_multiplier_basis_points) is Ok && {
            let maxbtc = balance_maxbtc + cancel_maxbtc(sims@, cfg.maxbtc_denom@);
            maxbtc > 0 ==> burn_ok(
                maxbtc as u128,
                exchange_rate,
                deposit_price_spec(exchange_rate, cfg.price_multiplier_basis_points)->Ok_0,
            )
        },
        r is Err ==> r == Err::<Vec<LbMsg>, ContractError>(ContractError::Unauthorized),
        r is Ok ==> run_sequence_ok(*cfg, exchange_rate, balance_btc, balance_maxbtc, sims@, r->Ok_0@),
{
    let price = match get_deposit_price(exchange_rate, cfg.price_multiplier_basis_points) {
        Ok(p) => p,
        Err(e) => return Err(e),
    };
    let outcome = get_cancel_messages(balance_btc, balance_maxbtc, sims, &cfg.btc_denom, &cfg.maxbtc_denom);
    let mut msgs = outcome.msgs;
    let ghost k = msgs@.len();
    if outcome.maxbtc > 0 {
        let mut burn = match get_burn_and_refund_messages(
            outcome.maxbtc,
            exchange_rate,
            price,
            &cfg.treasury,
            &cfg.maxbtc_denom,
        ) {
            Ok(m) => m,
            Err(e) => return Err(e),
        };
        msgs.append(&mut burn);
    }
    msgs.push(
        LbMsg::PlaceLimitOrder {
            token_in: cfg.btc_denom.clone(),
            token_out: cfg.maxbtc_denom.clone(),
            amount_in: outcome.btc,
            limit_sell_price: SellPrice::Rate(price),
        },
    );
    Ok(msgs)
}

/// The messages of a claw-back of `amount`: cancel every order, send the
/// amount to the core contract, then place the order again with the BTC
/// that remains (the virtual BTC balance less the amount, at least zero) at
/// the deposit price `price`.
pub open spec fn clawback_ok(cfg: Config, amount: Coin, price: Decimal, balance_btc: u128, sims: Seq<CancelSimulation>, msgs: Seq<LbMsg>) -> bool {
    let k = sims.len() as int;
    let vbtc = balance_btc + cancel_btc(sims, cfg.btc_denom@);
    let remaining = if vbtc > amount.amount { vbtc - amount.amount } else { 0 };
    &&& msgs.len() == k + 2
    &&& forall|i: int| 0 <= i < k ==> (#[trigger] msgs[i] matches LbMsg::CancelLimitOrder { tranche_key }
        && tranche_key@ == sims[i].tranche_key@)
    &&& msgs[k] matches LbMsg::BankSend { to_address, amount: a } && to_address@ == cfg.core_contract_address@
        && a.amount == amount.amount && a.denom@ == amount.denom@
    &&& msgs[k + 1] matches LbMsg::PlaceLimitOrder { token_in, token_out, amount_in, limit_sell_price }
        && token_in@ == cfg.btc_denom@ && token_out@ == cfg.maxbtc_denom@ && amount_in == remaining
        && limit_sell_price == SellPrice::Rate(price)
}

/// The core contract's claw-back of `amount`, at the core contract's
/// exchange rate `exchange_rate`: refused to anyone else, and (as
/// `Unauthorized`) where the deposit price leaves the decimal range; else
/// the orders are cancelled, the amount is sent to the core contract, and
/// the order is placed again with the remaining BTC at the deposit price.
pub fn clawback(
    cfg: &Config,
    sender: &String,
    amount: &Coin,
    exchange_rate: Decimal,
    balance_btc: u128,
    balance_maxbtc: u128,
    sims: &Vec<CancelSimulation>,
) -> (r: Result<Vec<LbMsg>, ContractError>)
    requires
        cancel_fits(balance_btc, balance_maxbtc, sims@, cfg.btc_denom@, cfg.maxbtc_denom@),
    ensures
        sender@ != cfg.core_contract_address@ ==> r == Err::<Vec<LbMsg>, ContractError>(ContractError::Unauthorized),
        sender@ == cfg.core_contract_address@ ==> match deposit_price_spec(exchange_rate, cfg.price_multiplier_basis_points) {
            Err(e) => r == Err::<Vec<LbMsg>, ContractError>(e),
            Ok(price) => r is Ok && clawback_ok(*cfg, *amount, price, balance_btc, sims@, r->Ok_0@),
        },
{
    if !sender.eq(&cfg.core_contract_address) {
        return Err(ContractError::Unauthorized);
    }
    let price = match get_deposit_price(exchange_rate, cfg.price_multiplier_basis_points) {
        Ok(p) => p,
        Err(e) => return Err(e),
    };
    let outcome = get_cancel_messages(balance_btc, balance_maxbtc, sims, &cfg.btc_denom, &cfg.maxbtc_denom);
    let mut msgs = outcome.msgs;
    let remaining: u128 = if outcome.btc > amount.amount { outcome.btc - amount.amount } else { 0 };
    msgs.push(
        LbMsg::BankSend {
            to_address: cfg.core_contract_address.clone(),
            amount: Coin { denom: amount.denom.clone(), amount: amount.amount },
        },
    );
    msgs.push(
        LbMsg::PlaceLimitOrder {
            token_in: cfg.btc_denom.clone(),
            token_out: cfg.maxbtc_denom.clone(),
            amount_in: remaining,
            limit_sell_price: SellPrice::Rate(price),
        },
    );
    Ok(msgs)
}

fn pick_string(old: &String, u: &Option<String>) -> (r: String)
    ensures
        r@ == (match u {
            Some(v) => v@,
            None => old@,
        }),
{
    match u {
        Some(v) => v.clone(),
        None => old.clone(),
    }
}

/// The authority's update of the configuration: refused to anyone else;
/// else every field given replaces the old one.
pub fn update_config(cfg: &Config, sender: &String, u: &UpdateConfig) -> (r: Result<Config, ContractError>)
    ensures
        sender@ != cfg.authority@ ==> r == Err::<Config, ContractError>(ContractError::Unauthorized),
        sender@ == cfg.authority@ ==> r is Ok && {
            let c = r->Ok_0;
            &&& c.core_contract_address@ == (match u.core_contract_address {
                Some(v) => v@,
                None => cfg.core_contract_address@,
            })
            &&& c.btc_denom@ == (match u.btc_denom {
                Some(v) => v@,
                None => cfg.btc_denom@,
            })
            &&& c.maxbtc_denom@ == (match u.maxbtc_denom {
                Some(v) => v@,
                None => cfg.maxbtc_denom@,
            })
            &&& c.price_multiplier_basis_points == (match u.price_multiplier_basis_points {
                Some(v) => v,
                None => cfg.price_multiplier_basis_points,
            })
            &&& c.authority@ == (match u.authority {
                Some(v) => v@,
                None => cfg.authority@,
            })
            &&& c.treasury@ == (match u.treasury {
                Some(v) => v@,
                None => cfg.treasury@,
            })
        },
{
    if !sender.eq(&cfg.authority) {
        return Err(ContractError::Unauthorized);
    }
    Ok(
        Config {
            core_contract_address: pick_string(&cfg.core_contract_address, &u.core_contract_address),
            btc_denom: pick_string(&cfg.btc_denom, &u.btc_denom),
            maxbtc_denom: pick_string(&cfg.maxbtc_denom, &u.maxbtc_denom),
            price_multiplier_basis_points: match u.price_multiplier_basis_points {
                Some(v) => v,
                None => cfg.price_multiplier_basis_points,
            },
            authority: pick_string(&cfg.authority, &u.authority),
            treasury: pick_string(&cfg.treasury, &u.treasury),
        },
    )
}

} // verus!
