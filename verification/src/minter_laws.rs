//! Properties of the minter that span its handlers.
use vstd::prelude::*;
use crate::coin::Coin;
use crate::decimal::{DECIMAL_FRACTIONAL, div_atomics, from_atomics_spec, mul_atomics, pow10};
use crate::denom::{
    decimal_string, full_denom_spec, lemma_decimal_string, lemma_parse_decimal_string,
    lemma_redemption_prefix_slashes, lemma_slash_count_concat, redemption_prefix, slash_count,
};
use crate::minter::{
    Batch, Config, MinterState, process_batch_aborts, ProcessBatchStatus, Queried, batch_id_spec, claim_spec, deposit_spec,
    flush_amounts_spec, flush_spec, payout_aborts, payout_spec, process_batch_spec, process_cache_spec,
    state_consistent, withdraw_spec,
};

verus! {

/// Processing the cache keeps the state consistent: an exchange rate is
/// cached exactly while an operation is under way, and a batch is
/// withdrawing exactly in `Withdrawing`.
pub proof fn law_process_cache_keeps_consistency(st: MinterState, cfg: Config, now: u64, q: Queried)
    requires
        state_consistent(st),
        process_cache_spec(st, cfg, now, q) is Ok,
    ensures
        state_consistent(process_cache_spec(st, cfg, now, q)->Ok_0.0),
{
}

/// A deposit keeps the state consistent.
pub proof fn law_deposit_keeps_consistency(
    st: MinterState,
    cfg: Config,
    now: u64,
    q: Queried,
    funds: Seq<Coin>,
    recipient: Seq<char>,
    recipient_valid: bool,
)
    requires
        state_consistent(st),
        deposit_spec(st, cfg, now, q, funds, recipient, recipient_valid) is Ok,
    ensures
        state_consistent(deposit_spec(st, cfg, now, q, funds, recipient, recipient_valid)->Ok_0.0),
{
    law_process_cache_keeps_consistency(st, cfg, now, q);
}

/// A deposit flush keeps the state consistent.
pub proof fn law_flush_keeps_consistency(st: MinterState, cfg: Config, now: u64, q: Queried)
    requires
        state_consistent(st),
        flush_spec(st, cfg, now, q) is Ok,
    ensures
        state_consistent(flush_spec(st, cfg, now, q)->Ok_0.0),
{
    law_process_cache_keeps_consistency(st, cfg, now, q);
}

/// A withdrawal request keeps the state consistent.
pub proof fn law_withdraw_keeps_consistency(
    st: MinterState,
    cfg: Config,
    now: u64,
    q: Queried,
    contract_addr: Seq<char>,
    funds: Seq<Coin>,
)
    requires
        state_consistent(st),
        withdraw_spec(st, cfg, now, q, contract_addr, funds) is Ok,
    ensures
        state_consistent(withdraw_spec(st, cfg, now, q, contract_addr, funds)->Ok_0.0),
{
    law_process_cache_keeps_consistency(st, cfg, now, q);
}

/// Moving the active batch to withdrawing keeps the state consistent.
pub proof fn law_process_batch_keeps_consistency(
    st: MinterState,
    cfg: Config,
    now: u64,
    q: Queried,
    supply: u128,
)
    requires
        state_consistent(st),
        process_batch_spec(st, cfg, now, q, supply) is Ok,
    ensures
        state_consistent(process_batch_spec(st, cfg, now, q, supply)->Ok_0.0),
{
    law_process_cache_keeps_consistency(st, cfg, now, q);
}

/// A claim keeps the state consistent.
pub proof fn law_claim_keeps_consistency(
    st: MinterState,
    cfg: Config,
    now: u64,
    q: Queried,
    contract_addr: Seq<char>,
    funds: Seq<Coin>,
    stored: Option<Batch>,
    supply: u128,
)
    requires
        state_consistent(st),
        claim_spec(st, cfg, now, q, contract_addr, funds, stored, supply) is Ok,
    ensures
        state_consistent(claim_spec(st, cfg, now, q, contract_addr, funds, stored, supply)->Ok_0.0),
{
    law_process_cache_keeps_consistency(st, cfg, now, q);
}

/// Moving the active batch to withdrawing starts a new active batch whose
/// id is one above the last one handed out, and records that id.
pub proof fn law_batch_ids_increase(st: MinterState, cfg: Config, now: u64, q: Queried, supply: u128)
    requires
        !process_batch_aborts(st, cfg, now, q, supply),
        process_batch_spec(st, cfg, now, q, supply) matches Ok(r) && r.3 == ProcessBatchStatus::Withdrawing,
    ensures
        ({
            let r = process_batch_spec(st, cfg, now, q, supply)->Ok_0;
            let c = process_cache_spec(st, cfg, now, q)->Ok_0.0;
            &&& r.0.batch_id_counter == c.batch_id_counter + 1
            &&& r.0.active_batch.unwrap().batch_id == r.0.batch_id_counter
            &&& r.0.withdrawing_batch.unwrap().batch_id == c.active_batch.unwrap().batch_id
        }),
{
}

/// A flush moves exactly the deposits it holds: what goes to the
/// liquidation buffer and to the pump adds up to the deposit buffer, and it
/// never both sends to the liquidation buffer and claws back from it.
pub proof fn law_flush_conserves_deposits(q: Queried, required: u128)
    ensures
        ({
            let a = flush_amounts_spec(q, required);
            a.to_liquidation + a.to_pump == q.deposit_buffer
                && (a.to_liquidation == 0 || a.clawback == 0)
        }),
{
}

/// Paying a claim never pays out more than the batch collected, as long as
/// the redeemed tokens do not exceed the supply.
pub proof fn law_claim_within_collected(cfg: Config, batch: Batch, amount: u128, supply: u128)
    requires
        batch.paid_amount <= batch.collected_amount,
        amount <= supply,
        payout_spec(cfg, batch, amount, supply) is Ok,
    ensures
        batch.paid_amount + payout_spec(cfg, batch, amount, supply)->Ok_0 <= batch.collected_amount,
{
    let avail = batch.collected_amount - batch.paid_amount;
    let p = (avail * amount) / (supply as int);
    assert(0 <= p <= avail) by (nonlinear_arith)
        requires
            avail >= 0,
            0 <= amount <= supply,
            supply > 0,
            p == (avail * amount) / (supply as int),
    {
        assert(avail * amount <= avail * supply);
        assert((avail * supply) / (supply as int) == avail);
    }
}

/// A claim is paid pro rata: the payout for `amount` tokens out of a
/// supply of `supply` is the unpaid collected BTC times `amount / supply`,
/// rounded down, so that `payout * supply <= unpaid * amount <
/// (payout + 1) * supply`.
pub proof fn law_payout_pro_rata(cfg: Config, batch: Batch, amount: u128, supply: u128)
    requires
        !payout_aborts(cfg, batch, amount, supply),
        payout_spec(cfg, batch, amount, supply) is Ok,
    ensures
        ({
            let p = payout_spec(cfg, batch, amount, supply)->Ok_0;
            let unpaid = batch.collected_amount - batch.paid_amount;
            &&& supply > 0
            &&& p * supply <= unpaid * amount
            &&& unpaid * amount < (p + 1) * supply
        }),
{
    let unpaid = batch.collected_amount - batch.paid_amount;
    assert(supply > 0);
    assert(unpaid >= 0);
    let x = unpaid * amount;
    let q = x / (supply as int);
    assert(0 <= x) by (nonlinear_arith)
        requires
            unpaid >= 0,
            amount >= 0,
            x == unpaid * amount,
    ;
    assert(0 <= q <= x && q * supply <= x && x < (q + 1) * supply) by (nonlinear_arith)
        requires
            x >= 0,
            supply > 0,
            q == x / (supply as int),
    ;
    assert(payout_spec(cfg, batch, amount, supply)->Ok_0 == q);
}

/// Moving a batch to withdrawing requests its redemption supply times the
/// exchange rate it caches, in the deposit coin's units rounded down:
/// `requested * 10^decimals <= rate * supply < (requested + 1) * 10^decimals`
/// with the rate as a decimal, that is, in atomics, `requested * 10^18 <=
/// rate.atomics * supply < (requested + 1) * 10^18`.
pub proof fn law_withdrawal_requests_supply_times_rate(st: MinterState, cfg: Config, now: u64, q: Queried, supply: u128)
    requires
        cfg.deposit_decimals <= 18,
        !process_batch_aborts(st, cfg, now, q, supply),
        process_batch_spec(st, cfg, now, q, supply) is Ok,
        process_batch_spec(st, cfg, now, q, supply)->Ok_0.3 == ProcessBatchStatus::Withdrawing,
    ensures
        ({
            let r = process_batch_spec(st, cfg, now, q, supply)->Ok_0.0;
            let requested = r.withdrawing_batch.unwrap().btc_requested;
            let er = r.cached_er.unwrap().er;
            let e = DECIMAL_FRACTIONAL as int;
            &&& requested * e <= er.atomics * supply
            &&& er.atomics * supply < (requested + 1) * e
        }),
{
    let r = process_batch_spec(st, cfg, now, q, supply)->Ok_0.0;
    let er = r.cached_er.unwrap().er;
    let d = cfg.deposit_decimals;
    let k = pow10((18 - d) as nat) as int;
    crate::decimal::lemma_pow10_pos((18 - d) as nat);
    let e = DECIMAL_FRACTIONAL as int;
    // The supply as a decimal is `supply * k`.
    let sd = from_atomics_spec(supply, d)->Some_0 as int;
    if d == 18 {
        assert(pow10(0) == 1) by {
            reveal_with_fuel(pow10, 1);
        }
        assert(supply as nat / 1nat == supply as nat);
        assert(sd == supply);
        assert(supply * k == supply) by (nonlinear_arith)
            requires
                k == 1,
        ;
    }
    assert(sd == supply * k);
    let x = er.atomics * sd;
    let m = x / e;
    let requested = r.withdrawing_batch.unwrap().btc_requested as int;
    assert(requested == m / k);
    // floor(floor(x / e) / k) == floor(er * supply / e), as x == er * supply * k.
    assert(m * e <= x && x < (m + 1) * e) by (nonlinear_arith)
        requires
            x >= 0,
            e > 0,
            m == x / e,
    ;
    assert(requested * k <= m && m < (requested + 1) * k) by (nonlinear_arith)
        requires
            m >= 0,
            k > 0,
            requested == m / k,
    ;
    assert(requested * e <= er.atomics * supply) by (nonlinear_arith)
        requires
            requested * k <= m,
            m * e <= x,
            x == er.atomics * (supply * k),
            k > 0,
            e > 0,
            requested >= 0,
    {
        assert(requested * k * e <= m * e);
        assert(requested * e * k <= er.atomics * supply * k);
    }
    assert(er.atomics * supply < (requested + 1) * e) by (nonlinear_arith)
        requires
            m < (requested + 1) * k,
            x < (m + 1) * e,
            x == er.atomics * (supply * k),
            k > 0,
            e > 0,
            m >= 0,
    {
        assert(m + 1 <= (requested + 1) * k);
        assert((m + 1) * e <= (requested + 1) * k * e);
        assert(er.atomics * supply * k < (requested + 1) * e * k);
    }
}

/// The redemption token of a batch, as minted on withdrawal by this
/// contract, names that batch again when claimed: its full denom reads back
/// as the batch id (for a contract address without '/').
pub proof fn law_redemption_denom_round_trip(contract_addr: Seq<char>, batch_id: u64, amount: u128, denom: String)
    requires
        slash_count(contract_addr) == 0,
        amount > 0,
        denom@ == full_denom_spec(contract_addr, "redemption/batch/"@ + decimal_string(batch_id as nat)),
    ensures
        batch_id_spec(contract_addr, Coin { denom, amount }) == Some(batch_id),
{
    let p = redemption_prefix(contract_addr);
    let ds = decimal_string(batch_id as nat);
    reveal_strlit("factory/");
    reveal_strlit("/");
    reveal_strlit("redemption/batch/");
    reveal_strlit("/redemption/batch/");
    assert(denom@ =~= p + ds);
    assert(p.is_prefix_of(denom@));
    assert(denom@.skip(p.len() as int) =~= ds);
    lemma_redemption_prefix_slashes(contract_addr);
    lemma_slash_count_concat(p, ds);
    lemma_decimal_string(batch_id as nat);
    lemma_parse_decimal_string(batch_id);
}

} // verus!
