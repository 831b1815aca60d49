//! Properties of the core contract, the fee collector, the liquidation
//! buffer, the APY calculator and the allow-list that span their handlers
//! or hold of every input.
use vstd::prelude::*;
use crate::allow_list::input_addresses;
use crate::address::AddressInput;
use crate::apy_calculator::{ExchangeRate, RateRing, ring_wf, slot_of, start_record};
use crate::coin::{Coin, must_pay_spec};
use crate::decimal::{
    DECIMAL_FRACTIONAL, Decimal, div_atomics, fits_u128, from_atomics_spec, from_ratio_spec, lemma_pow10_pos, mul_atomics, pow10,
};
use crate::fee_collector::{
    dilution_factor, fee_decimal, fee_to_mint_aborts, fee_to_mint_spec, lemma_div_atomics_ge_one, lemma_mul_atomics_le,
    target_rate,
};
use crate::liquidation_buffer::{burn_amount_spec, deposit_price_spec};
use crate::neutron_core::{
    Config, ContractState, CoreState, InstantiateMsg, SignedAmount, TickInputs, TickStage, UpdateConfigMsg,
    btc_requested_spec, config_from_msg, config_updated, deposit_spec, instantiate_error, simulate_spec, tick_aborts,
    tick_spec, update_config_error,
};

verus! {

// ------------------------------------------------------------------------------------------------
// Arithmetic
// ------------------------------------------------------------------------------------------------

proof fn lemma_div_le(x: int, f: int)
    requires
        x >= 0,
        f >= 1,
    ensures
        0 <= x / f <= x,
{
    assert(0 <= x / f <= x) by (nonlinear_arith)
        requires
            x >= 0,
            f >= 1,
    ;
}

proof fn lemma_mul_div_cancel(a: int, f: int)
    requires
        f > 0,
    ensures
        (a * f) / f == a,
{
    assert((a * f) / f == a) by (nonlinear_arith)
        requires
            f > 0,
    ;
}

proof fn lemma_ratio_at_most_scale(o: int, n: int, f: int)
    requires
        0 <= o <= n,
        n > 0,
        f > 0,
    ensures
        0 <= (o * f) / n <= f,
{
    assert(o * f <= n * f) by (nonlinear_arith)
        requires
            0 <= o <= n,
            f > 0,
    ;
    assert((n * f) / n == f) by (nonlinear_arith)
        requires
            n > 0,
    ;
    assert((o * f) / n <= (n * f) / n) by (nonlinear_arith)
        requires
            o * f <= n * f,
            n > 0,
    ;
    assert(0 <= (o * f) / n) by (nonlinear_arith)
        requires
            o >= 0,
            f > 0,
            n > 0,
    ;
}

proof fn lemma_scaled_le(a: int, d: int, f: int)
    requires
        a >= 0,
        0 <= d <= f,
        f > 0,
    ensures
        (a * d) / f <= a,
{
    assert(a * d <= a * f) by (nonlinear_arith)
        requires
            a >= 0,
            0 <= d <= f,
    ;
    lemma_mul_div_cancel(a, f);
    assert((a * d) / f <= (a * f) / f) by (nonlinear_arith)
        requires
            a * d <= a * f,
            f > 0,
    ;
}

// ------------------------------------------------------------------------------------------------
// Core contract
// ------------------------------------------------------------------------------------------------

/// The deposit cost stays below one: instantiation refuses a cost of one or
/// more, and so does every update.
pub proof fn law_deposit_cost_below_one(m: InstantiateMsg, c: Config, old_cfg: Config, new_cfg: Config, owner: Option<String>, sender: Seq<char>, u: UpdateConfigMsg)
    requires
        instantiate_error(m) is None && config_from_msg(c, m),
        old_cfg.deposit_cost.atomics < DECIMAL_FRACTIONAL,
        update_config_error(owner, sender, u) is None && config_updated(old_cfg, new_cfg, u),
    ensures
        c.deposit_cost.atomics < DECIMAL_FRACTIONAL,
        new_cfg.deposit_cost.atomics < DECIMAL_FRACTIONAL,
{
}

/// The deposit simulation reports what a deposit mints: whenever a deposit
/// of the attached funds succeeds, the simulation of the paid amount at the
/// same moment and rate gives exactly the amount minted.
pub proof fn law_simulation_matches_deposit(
    cfg: Config,
    now: u64,
    funds: Seq<Coin>,
    aum: SignedAmount,
    recipient_valid: bool,
    is_allowed: bool,
    twaer: Decimal,
    published_at: u64,
    min_receive_amount: Option<u128>,
)
    requires
        deposit_spec(cfg, now, funds, aum, recipient_valid, is_allowed, twaer, published_at, min_receive_amount) is Ok,
    ensures
        must_pay_spec(funds, cfg.deposit_denom@) is Ok,
        now - published_at <= cfg.exchange_rate_stale_period,
        simulate_spec(cfg, now, twaer, published_at, must_pay_spec(funds, cfg.deposit_denom@)->Ok_0) == Ok::<
            u128,
            crate::neutron_core::ContractError,
        >(deposit_spec(cfg, now, funds, aum, recipient_valid, is_allowed, twaer, published_at, min_receive_amount)->Ok_0),
{
}

/// A deposit never takes the AUM over the cap: whenever a deposit succeeds
/// under a cap, the reported AUM plus the amount paid is at most the cap.
pub proof fn law_deposit_within_cap(
    cfg: Config,
    now: u64,
    funds: Seq<Coin>,
    aum: SignedAmount,
    recipient_valid: bool,
    is_allowed: bool,
    twaer: Decimal,
    published_at: u64,
    min_receive_amount: Option<u128>,
)
    requires
        cfg.deposits_cap is Some,
        deposit_spec(cfg, now, funds, aum, recipient_valid, is_allowed, twaer, published_at, min_receive_amount) is Ok,
    ensures
        must_pay_spec(funds, cfg.deposit_denom@) is Ok,
        aum.value() + must_pay_spec(funds, cfg.deposit_denom@)->Ok_0 <= cfg.deposits_cap.unwrap(),
{
}

/// An update keeps the stale period positive.
pub proof fn law_stale_period_stays_positive(old_cfg: Config, new_cfg: Config, owner: Option<String>, sender: Seq<char>, u: UpdateConfigMsg)
    requires
        old_cfg.exchange_rate_stale_period > 0,
        update_config_error(owner, sender, u) is None && config_updated(old_cfg, new_cfg, u),
    ensures
        new_cfg.exchange_rate_stale_period > 0,
{
}

/// An idle tick with maxBTC burned settles the active batch: it requests
/// the burned maxBTC at the exchange rate, collects from the deposits the
/// smaller of that and the deposit balance and sends it on; the batch is
/// finalized exactly when the deposits cover it, and the next batch takes
/// the next id.
pub proof fn law_idle_tick_settles_batch(cfg: Config, st: CoreState, sender: Seq<char>, now: u64, inp: TickInputs)
    requires
        st.fsm == ContractState::Idle,
        st.active_batch.maxbtc_burned != 0,
        !tick_aborts(cfg, st, now, inp),
        tick_spec(cfg, st, sender, now, inp) is Ok,
    ensures
        ({
            let (st2, fin, stage, amount) = tick_spec(cfg, st, sender, now, inp)->Ok_0;
            let requested = btc_requested_spec(inp.twaer, st.active_batch.maxbtc_burned);
            &&& stage == TickStage::IdleWithdrawal
            &&& amount == if requested < inp.deposit_balance { requested } else { inp.deposit_balance as int }
            &&& (fin is Some <==> requested <= inp.deposit_balance)
            &&& (fin is Some ==> st2.fsm == ContractState::Idle && fin.unwrap().collected_amount
                == fin.unwrap().btc_requested && fin.unwrap().batch_id == st.active_batch.batch_id)
            &&& (fin is None ==> st2.fsm == ContractState::WithdrawJLP && st2.withdrawing_batch is Some
                && st2.withdrawing_batch.unwrap().collected_amount == inp.deposit_balance
                && st2.withdrawing_batch.unwrap().batch_id == st.active_batch.batch_id)
            &&& st2.active_batch.batch_id == match st.batch_id_counter {
                Some(c) => c + 1,
                None => 1,
            }
            &&& st2.active_batch.maxbtc_burned == 0
        }),
{
    let m = mul_atomics(inp.twaer.atomics as int, st.active_batch.maxbtc_burned * DECIMAL_FRACTIONAL);
    lemma_div_le(m, DECIMAL_FRACTIONAL as int);
}

/// No tick hands out a batch id twice: the counter stays or moves to the
/// id of the new active batch, one past it.
pub proof fn law_tick_counter_increases(cfg: Config, st: CoreState, sender: Seq<char>, now: u64, inp: TickInputs)
    requires
        !tick_aborts(cfg, st, now, inp),
        tick_spec(cfg, st, sender, now, inp) is Ok,
    ensures
        ({
            let st2 = tick_spec(cfg, st, sender, now, inp)->Ok_0.0;
            st2.batch_id_counter == st.batch_id_counter || (st2.batch_id_counter == Some(st2.active_batch.batch_id)
                && st2.active_batch.batch_id == match st.batch_id_counter {
                Some(c) => c + 1,
                None => 1,
            })
        }),
{
}

/// The deposit cycle: from idle with deposits and nothing burned, four
/// ticks (the observer unlocked) flush the deposits and bring the machine
/// back to idle, the batches untouched.
pub proof fn law_deposit_cycle(
    cfg: Config,
    st: CoreState,
    sender: Seq<char>,
    now: u64,
    i1: TickInputs,
    i2: TickInputs,
    i3: TickInputs,
    i4: TickInputs,
)
    requires
        st.fsm == ContractState::Idle,
        st.active_batch.maxbtc_burned == 0,
        tick_spec(cfg, st, sender, now, i1) is Ok,
        i1.deposit_balance != 0,
        !i2.observer_locked,
    ensures
        ({
            let s1 = tick_spec(cfg, st, sender, now, i1)->Ok_0.0;
            let r2 = tick_spec(cfg, s1, sender, now, i2);
            let s2 = r2->Ok_0.0;
            let r3 = tick_spec(cfg, s2, sender, now, i3);
            let s3 = r3->Ok_0.0;
            let r4 = tick_spec(cfg, s3, sender, now, i4);
            &&& tick_spec(cfg, st, sender, now, i1)->Ok_0.2 == TickStage::FlushDeposits
            &&& tick_spec(cfg, st, sender, now, i1)->Ok_0.3 == i1.deposit_balance
            &&& s1.fsm == ContractState::DepositNeutron
            &&& r2 is Ok && s2.fsm == ContractState::DepositPending
            &&& r3 is Ok && s3.fsm == ContractState::DepositJLP
            &&& r4 is Ok && r4->Ok_0.0 == CoreState { fsm: ContractState::Idle, ..st }
        }),
{
}

/// The withdrawal cycle: once a batch is withdrawing, the ticks go through
/// `WithdrawJLP`, `WithdrawPending` (waiting for the holder to lock the
/// returned BTC, which is added to the batch) and `WithdrawNeutron`, which
/// finalizes the batch and returns to idle.
pub proof fn law_withdraw_cycle(cfg: Config, st: CoreState, sender: Seq<char>, now: u64, i1: TickInputs, i2: TickInputs, i3: TickInputs)
    requires
        st.fsm == ContractState::WithdrawJLP,
        st.withdrawing_batch is Some,
        tick_spec(cfg, st, sender, now, i1) is Ok,
        i2.holder_locked_amount is Some,
        st.withdrawing_batch.unwrap().collected_amount + i2.holder_locked_amount.unwrap() <= u128::MAX,
    ensures
        ({
            let s1 = tick_spec(cfg, st, sender, now, i1)->Ok_0.0;
            let r2 = tick_spec(cfg, s1, sender, now, i2);
            let s2 = r2->Ok_0.0;
            let r3 = tick_spec(cfg, s2, sender, now, i3);
            let wb = st.withdrawing_batch.unwrap();
            &&& s1.fsm == ContractState::WithdrawPending
            &&& r2 is Ok && s2.fsm == ContractState::WithdrawNeutron
            &&& s2.withdrawing_batch.unwrap().collected_amount == wb.collected_amount + i2.holder_locked_amount.unwrap()
            &&& r3 is Ok && r3->Ok_0.0.fsm == ContractState::Idle && r3->Ok_0.0.withdrawing_batch is None
            &&& r3->Ok_0.1 == s2.withdrawing_batch
            &&& r3->Ok_0.0.active_batch == st.active_batch
        }),
{
}

// ------------------------------------------------------------------------------------------------
// Fee collector
// ------------------------------------------------------------------------------------------------

/// No gain of the exchange rate, no fee.
pub proof fn law_no_fee_without_gain(rate_old: Decimal, rate_current: Decimal, total_supply: u128, fee: Decimal, decimals: u32)
    requires
        rate_current.atomics <= rate_old.atomics,
    ensures
        fee_to_mint_spec(rate_old, rate_current, total_supply, fee, decimals) == Ok::<u128, crate::fee_collector::ContractError>(0),
{
}

/// floor(a / c) <= floor(b / c) when a <= b and c > 0.
proof fn lemma_floor_monotone(a: int, b: int, c: int)
    requires
        a <= b,
        c > 0,
    ensures
        a / c <= b / c,
{
    assert(a / c <= b / c) by (nonlinear_arith)
        requires
            a <= b,
            c > 0,
    ;
}

/// floor(x / d1) <= floor(x / d2) when x >= 0 and 0 < d2 <= d1.
proof fn lemma_floor_antitone(x: int, d1: int, d2: int)
    requires
        x >= 0,
        0 < d2 <= d1,
    ensures
        x / d1 <= x / d2,
{
    assert(x / d1 <= x / d2) by (nonlinear_arith)
        requires
            x >= 0,
            0 < d2 <= d1,
    ;
}

/// With `q = floor(rc * E / t)` and `f = floor((q - E) * sd / E)`, minting
/// `f` on `sd` leaves at least the rate `t`: `(sd + f) * t <= sd * rc`.
proof fn lemma_dilution_bound(rc: int, t: int, sd: int)
    requires
        0 < t <= rc,
        sd >= 0,
    ensures
        ({
            let e = DECIMAL_FRACTIONAL as int;
            let q = (rc * e) / t;
            let f = ((q - e) * sd) / e;
            &&& q >= e
            &&& f >= 0
            &&& (sd + f) * t <= sd * rc
        }),
{
    let e = DECIMAL_FRACTIONAL as int;
    let q = (rc * e) / t;
    lemma_div_atomics_ge_one(rc, t);
    let d = q - e;
    let f = (d * sd) / e;
    assert(q * t <= rc * e) by (nonlinear_arith)
        requires
            t > 0,
            q == (rc * e) / t,
    ;
    assert(0 <= f && f * e <= d * sd) by (nonlinear_arith)
        requires
            d >= 0,
            sd >= 0,
            e > 0,
            f == (d * sd) / e,
    ;
    assert((sd + f) * t * e <= sd * rc * e) by (nonlinear_arith)
        requires
            f * e <= d * sd,
            q * t <= rc * e,
            d == q - e,
            t > 0,
            sd >= 0,
            f >= 0,
    ;
    assert((sd + f) * t <= sd * rc) by (nonlinear_arith)
        requires
            (sd + f) * t * e <= sd * rc * e,
            e > 0,
    ;
}

/// The supply as a decimal is the supply times `10^(18 - decimals)`.
proof fn lemma_supply_scaled(total_supply: u128, decimals: u32)
    requires
        decimals <= 18,
        from_atomics_spec(total_supply, decimals) is Some,
    ensures
        from_atomics_spec(total_supply, decimals)->Some_0 == total_supply * pow10((18 - decimals) as nat),
        pow10((18 - decimals) as nat) > 0,
{
    lemma_pow10_pos((18 - decimals) as nat);
    if decimals == 18 {
        assert(pow10(0) == 1) by {
            reveal_with_fuel(pow10, 1);
        }
        assert(total_supply as nat / 1nat == total_supply as nat);
        assert((decimals - 18) as nat == 0);
        assert(from_atomics_spec(total_supply, decimals)->Some_0 == total_supply);
        assert(pow10((18 - decimals) as nat) == 1);
        let p = pow10((18 - decimals) as nat);
        assert(total_supply * p == total_supply) by (nonlinear_arith)
            requires
                p == 1,
        ;
    } else {
        assert(fits_u128(total_supply * pow10((18 - decimals) as nat)));
        assert(from_atomics_spec(total_supply, decimals)->Some_0 == total_supply * pow10((18 - decimals) as nat));
    }
}

/// The fee never dilutes the rate below its target: after a gain of the
/// exchange rate, minting the fee on the supply leaves the value held per
/// token, `rate_current * supply / (supply + fee)`, at least at the target
/// rate `rate_old + gain * (1 - share)`.
pub proof fn law_fee_keeps_target_rate(rate_old: Decimal, rate_current: Decimal, total_supply: u128, fee: Decimal, decimals: u32)
    requires
        rate_current.atomics > rate_old.atomics,
        fee.atomics <= DECIMAL_FRACTIONAL,
        decimals <= 18,
        !fee_to_mint_aborts(rate_old, rate_current, total_supply, fee, decimals),
        fee_to_mint_spec(rate_old, rate_current, total_supply, fee, decimals) is Ok,
    ensures
        (total_supply + fee_to_mint_spec(rate_old, rate_current, total_supply, fee, decimals)->Ok_0) * target_rate(
            rate_old,
            rate_current,
            fee,
        ) <= rate_current.atomics * total_supply,
{
    let r = fee_to_mint_spec(rate_old, rate_current, total_supply, fee, decimals);
    let e = DECIMAL_FRACTIONAL as int;
    let g = rate_current.atomics - rate_old.atomics;
    lemma_mul_atomics_le(g, e - fee.atomics);
    let t = target_rate(rate_old, rate_current, fee);
    if t == 0 {
        return;
    }
    let rc = rate_current.atomics as int;
    lemma_supply_scaled(total_supply, decimals);
    let k = pow10((18 - decimals) as nat) as int;
    let sd = total_supply * k;
    lemma_dilution_bound(rc, t, sd);
    let f = fee_decimal(rate_old, rate_current, from_atomics_spec(total_supply, decimals)->Some_0, fee);
    assert(f == (((rc * e) / t - e) * sd) / e);
    let fee_amount = r->Ok_0;
    assert(fee_amount == f / k);
    assert(fee_amount * k <= f) by (nonlinear_arith)
        requires
            k > 0,
            f >= 0,
            fee_amount == f / k,
    ;
    assert((total_supply + fee_amount) * t <= rc * total_supply) by (nonlinear_arith)
        requires
            fee_amount * k <= f,
            (sd + f) * t <= sd * rc,
            sd == total_supply * k,
            k > 0,
            t > 0,
            total_supply >= 0,
            fee_amount >= 0,
    ;
}

/// A larger fee share never mints less: the fee does not decrease as the
/// reduction share grows (up to one), as long as the larger share leaves a
/// positive target rate (at a zero old rate and a share of one the target
/// is zero and nothing is minted).
pub proof fn law_fee_grows_with_share(
    rate_old: Decimal,
    rate_current: Decimal,
    total_supply: u128,
    fee_low: Decimal,
    fee_high: Decimal,
    decimals: u32,
)
    requires
        rate_current.atomics <= rate_old.atomics || target_rate(rate_old, rate_current, fee_high) > 0,
        fee_low.atomics <= fee_high.atomics <= DECIMAL_FRACTIONAL,
        decimals <= 18,
        !fee_to_mint_aborts(rate_old, rate_current, total_supply, fee_low, decimals),
        !fee_to_mint_aborts(rate_old, rate_current, total_supply, fee_high, decimals),
        fee_to_mint_spec(rate_old, rate_current, total_supply, fee_low, decimals) is Ok,
        fee_to_mint_spec(rate_old, rate_current, total_supply, fee_high, decimals) is Ok,
    ensures
        fee_to_mint_spec(rate_old, rate_current, total_supply, fee_low, decimals)->Ok_0
            <= fee_to_mint_spec(rate_old, rate_current, total_supply, fee_high, decimals)->Ok_0,
{
    if rate_current.atomics <= rate_old.atomics {
        return;
    }
    let e = DECIMAL_FRACTIONAL as int;
    let g = rate_current.atomics - rate_old.atomics;
    let rc = rate_current.atomics as int;
    lemma_mul_atomics_le(g, e - fee_low.atomics);
    lemma_mul_atomics_le(g, e - fee_high.atomics);
    let t_low = target_rate(rate_old, rate_current, fee_low);
    let t_high = target_rate(rate_old, rate_current, fee_high);
    assert(g * (e - fee_high.atomics) <= g * (e - fee_low.atomics)) by (nonlinear_arith)
        requires
            g > 0,
            fee_low.atomics <= fee_high.atomics,
    ;
    lemma_floor_monotone(g * (e - fee_high.atomics), g * (e - fee_low.atomics), e);
    assert(0 < t_high <= t_low);
    lemma_floor_antitone(rc * e, t_low, t_high);
    lemma_supply_scaled(total_supply, decimals);
    let k = pow10((18 - decimals) as nat) as int;
    let sd = from_atomics_spec(total_supply, decimals)->Some_0 as int;
    lemma_dilution_bound(rc, t_low, sd);
    lemma_dilution_bound(rc, t_high, sd);
    let d_low = dilution_factor(rate_old, rate_current, fee_low);
    let d_high = dilution_factor(rate_old, rate_current, fee_high);
    assert(d_low <= d_high);
    assert(d_low * sd <= d_high * sd) by (nonlinear_arith)
        requires
            d_low <= d_high,
            sd >= 0,
    ;
    lemma_floor_monotone(d_low * sd, d_high * sd, e);
    let f_low = fee_decimal(rate_old, rate_current, sd as u128, fee_low);
    let f_high = fee_decimal(rate_old, rate_current, sd as u128, fee_high);
    assert(f_low <= f_high);
    lemma_floor_monotone(f_low, f_high, k);
}

// ------------------------------------------------------------------------------------------------
// Liquidation buffer
// ------------------------------------------------------------------------------------------------

/// Without a surcharge the buffer sells at the exchange rate.
pub proof fn law_no_surcharge_price_is_rate(er: Decimal)
    ensures
        deposit_price_spec(er, 0) == Ok::<Decimal, crate::liquidation_buffer::ContractError>(er),
{
    lemma_mul_div_cancel(er.atomics as int, DECIMAL_FRACTIONAL as int);
}

/// The deposit price never falls below the exchange rate.
pub proof fn law_deposit_price_at_least_rate(er: Decimal, bp: u128)
    requires
        deposit_price_spec(er, bp) is Ok,
    ensures
        deposit_price_spec(er, bp)->Ok_0.atomics >= er.atomics,
{
    let f = DECIMAL_FRACTIONAL as int;
    let m = f + bp * 100_000_000_000_000;
    let e = er.atomics as int;
    assert(e * m >= e * f) by (nonlinear_arith)
        requires
            m >= f,
            e >= 0,
    ;
    lemma_mul_div_cancel(e, f);
    assert((e * m) / f >= (e * f) / f) by (nonlinear_arith)
        requires
            e * m >= e * f,
            f > 0,
    ;
}

/// Bought at the exchange rate itself, all the maxBTC is burned and none
/// goes to the treasury.
pub proof fn law_equal_prices_burn_everything(amount: u128, price: Decimal)
    requires
        price.atomics != 0,
        amount * DECIMAL_FRACTIONAL <= u128::MAX,
    ensures
        burn_amount_spec(amount, price, price) == amount,
{
    let f = DECIMAL_FRACTIONAL as int;
    lemma_div_self(price.atomics as int, f);
    assert(from_ratio_spec(price.atomics, price.atomics) == Some(DECIMAL_FRACTIONAL));
    lemma_mul_div_cancel(amount * f, f);
    lemma_mul_div_cancel(amount as int, f);
}

proof fn lemma_div_self(x: int, f: int)
    requires
        x > 0,
    ensures
        (x * f) / x == f,
{
    assert((x * f) / x == f) by (nonlinear_arith)
        requires
            x > 0,
    ;
}

/// The maxBTC a run burns never exceeds what it holds when it was bought
/// at or above the exchange rate.
pub proof fn law_burn_within_amount(amount: u128, original_price: Decimal, new_price: Decimal)
    requires
        original_price.atomics <= new_price.atomics,
        new_price.atomics != 0,
        amount * DECIMAL_FRACTIONAL <= u128::MAX,
    ensures
        0 <= burn_amount_spec(amount, original_price, new_price) <= amount,
{
    let f = DECIMAL_FRACTIONAL as int;
    let o = original_price.atomics as int;
    let n = new_price.atomics as int;
    lemma_ratio_at_most_scale(o, n, f);
    let d = div_atomics(o, n);
    assert(from_ratio_spec(original_price.atomics, new_price.atomics) == Some(d as u128));
    lemma_scaled_le(amount * f, d, f);
    assert(amount * f >= 0);
    lemma_div_le(mul_atomics(amount * f, d), f);
    assert(mul_atomics(amount * f, d) >= 0) by (nonlinear_arith)
        requires
            amount * f >= 0,
            d >= 0,
            f > 0,
            mul_atomics(amount * f, d) == ((amount * f) * d) / f,
    ;
    assert(mul_atomics(amount * f, d) <= amount * f);
    assert(mul_atomics(amount * f, d) / f <= (amount * f) / f) by (nonlinear_arith)
        requires
            mul_atomics(amount * f, d) <= amount * f,
            f > 0,
    ;
    lemma_mul_div_cancel(amount as int, f);
}

// ------------------------------------------------------------------------------------------------
// APY calculator
// ------------------------------------------------------------------------------------------------

/// The yield query spans exactly the records asked for: with more than
/// `span` records it starts `span` records before the last one, and with
/// fewer at the first record; it never starts further back than `span`.
pub proof fn law_apy_start_is_span_before_last(ring: RateRing, span: u64)
    requires
        ring.next_hour_counter > 0,
    ensures
        ring.next_hour_counter > span ==> start_record(ring, span) == ring.next_hour_counter - 1 - span,
        ring.next_hour_counter <= span ==> start_record(ring, span) == 0,
        0 <= start_record(ring, span) <= ring.next_hour_counter - 1,
        ring.next_hour_counter - 1 - start_record(ring, span) <= span,
{
}

/// After a record, the ring's last slot holds it: the yield query ends at
/// the rate just recorded.
pub proof fn law_last_record_is_newest(old_ring: RateRing, new_ring: RateRing, periods: u64, rec: ExchangeRate)
    requires
        ring_wf(old_ring, periods),
        new_ring.next_hour_counter == old_ring.next_hour_counter + 1,
        new_ring.rates@ == if old_ring.next_hour_counter % periods < old_ring.rates@.len() {
            old_ring.rates@.update((old_ring.next_hour_counter % periods) as int, rec)
        } else {
            old_ring.rates@.push(rec)
        },
    ensures
        0 <= slot_of(new_ring.next_hour_counter - 1, periods) < new_ring.rates@.len(),
        new_ring.rates@[slot_of(new_ring.next_hour_counter - 1, periods)] == rec,
{
    let c = old_ring.next_hour_counter;
    assert(c < periods ==> c % periods == c) by (nonlinear_arith)
        requires
            periods > 0,
    ;
    assert(c % periods < periods) by (nonlinear_arith)
        requires
            periods > 0,
    ;
}

// ------------------------------------------------------------------------------------------------
// Allow-list
// ------------------------------------------------------------------------------------------------

/// Every address the owner allows is allowed afterwards.
pub proof fn law_allowed_after_allow(before: Set<Seq<char>>, addresses: Seq<AddressInput>, i: int)
    requires
        0 <= i < addresses.len(),
    ensures
        before.union(input_addresses(addresses).to_set()).contains(addresses[i].address@),
{
    assert(input_addresses(addresses)[i] == addresses[i].address@);
    assert(input_addresses(addresses).to_set().contains(addresses[i].address@));
}

/// No address the owner denies is allowed afterwards, and every other one
/// stays as it was.
pub proof fn law_denied_after_deny(before: Set<Seq<char>>, addresses: Seq<AddressInput>, i: int, other: Seq<char>)
    requires
        0 <= i < addresses.len(),
        !input_addresses(addresses).contains(other),
    ensures
        !before.difference(input_addresses(addresses).to_set()).contains(addresses[i].address@),
        before.difference(input_addresses(addresses).to_set()).contains(other) == before.contains(other),
{
    assert(input_addresses(addresses)[i] == addresses[i].address@);
    assert(input_addresses(addresses).to_set().contains(addresses[i].address@));
}

} // verus!
