//! The APY calculator: once a period it records the exchange rate of the
//! core contract in a ring of the last `periods_to_keep` records, and from
//! two records it extrapolates the yearly yield.
use vstd::prelude::*;
use crate::address::{AddressInput, OwnershipError};
use crate::decimal::{Decimal, DECIMAL_FRACTIONAL, div_atomics, fits_u128, mul_atomics};

verus! {

/// Seconds in a (365-day) year.
pub const SECONDS_PER_YEAR: u128 = 31_536_000u128;

/// Nanoseconds in a second.
pub const NANOS_PER_SECOND: u64 = 1_000_000_000u64;

/// The calculator's configuration.
#[derive(Clone, Debug, PartialEq, Eq)]
pub struct Config {
    pub core_contract: String,
    /// Seconds that must pass between two records.
    pub period_timeout: u64,
    /// How many records the ring keeps.
    pub periods_to_keep: u64,
}

/// An exchange rate recorded at a block.
#[derive(Clone, Copy, Debug, PartialEq, Eq, Structural)]
pub struct ExchangeRate {
    pub height: u64,
    /// Block time in nanoseconds.
    pub timestamp: u64,
    pub exchange_rate: Decimal,
}

/// The yield between two records.
#[derive(Clone, Copy, Debug, PartialEq, Eq, Structural)]
pub struct Apy {
    pub start_exchange_rate: ExchangeRate,
    pub end_exchange_rate: ExchangeRate,
    pub apy: Decimal,
}

/// The errors of the calculator.
#[derive(Clone, Debug, PartialEq, Eq)]
pub enum ContractError {
    InsufficientFunds,
    UnknownTargetBalance,
    Ownership(OwnershipError),
    EndBeforeStart,
    TooEarly,
    TimespanOutOfRange,
    /// An address that the chain does not accept.
    InvalidAddress,
    /// No rate has been recorded yet.
    NotFound,
}

/// Queries the calculator answers.
#[derive(Clone, Copy, Debug, PartialEq, Eq, Structural)]
pub enum QueryMsg {
    /// The yield over the last `time_span_hours` records.
    GetApy { time_span_hours: u64 },
    GetConfig,
    Ownership,
}

/// Migration messages of the calculator.
#[derive(Clone, Copy, Debug, PartialEq, Eq, Structural)]
pub enum MigrationMsg {
    Migrate,
}

/// Queries the calculator sends to the core contract.
#[derive(Clone, Copy, Debug, PartialEq, Eq, Structural)]
pub enum CoreQueryMsg {
    ExchangeRate,
}

/// Whole seconds of a block time in nanoseconds.
pub open spec fn seconds(nanos: u64) -> int {
    (nanos / NANOS_PER_SECOND) as int
}

/// The yearly yield between two records: the relative gain of the rate
/// times the number of such spans in a year,
/// `((end - start) / start) * (31536000 / dt)`, each step rounded down,
/// where `dt` is the whole seconds between them.
pub open spec fn apy_spec(start: ExchangeRate, end: ExchangeRate) -> int {
    mul_atomics(
        div_atomics(end.exchange_rate.atomics - start.exchange_rate.atomics, start.exchange_rate.atomics as int),
        div_atomics(SECONDS_PER_YEAR as int, seconds(end.timestamp) - seconds(start.timestamp)),
    )
}

/// The inputs on which the prediction aborts: the rate fell, the start rate
/// is zero, the records lie within one second, or a step leaves the decimal
/// range.
pub open spec fn predict_apy_aborts(start: ExchangeRate, end: ExchangeRate) -> bool {
    &&& end.timestamp > start.timestamp
    &&& {
        ||| end.exchange_rate.atomics < start.exchange_rate.atomics
        ||| start.exchange_rate.atomics == 0
        ||| !fits_u128(div_atomics(end.exchange_rate.atomics - start.exchange_rate.atomics, start.exchange_rate.atomics as int))
        ||| seconds(end.timestamp) == seconds(start.timestamp)
        ||| !fits_u128(div_atomics(SECONDS_PER_YEAR as int, seconds(end.timestamp) - seconds(start.timestamp)))
        ||| !fits_u128(apy_spec(start, end))
    }
}

/// The yearly yield from `start` to `end`; `EndBeforeStart` unless `end`
/// is later.
pub fn predict_apy(start: &ExchangeRate, end: &ExchangeRate) -> (r: Result<Decimal, ContractError>)
    requires
        !predict_apy_aborts(*start, *end),
    ensures
        end.timestamp <= start.timestamp ==> r == Err::<Decimal, ContractError>(ContractError::EndBeforeStart),
        end.timestamp > start.timestamp ==> r is Ok && r->Ok_0.atomics == apy_spec(*start, *end),
{
    if end.timestamp <= start.timestamp {
        return Err(ContractError::EndBeforeStart);
    }
    let dt_sec = (end.timestamp / NANOS_PER_SECOND - start.timestamp / NANOS_PER_SECOND) as u128;
    let rate_start = start.exchange_rate;
    let rate_end = end.exchange_rate;
    let delta = rate_end.sub(rate_start).div(rate_start);
    let per_year = Decimal::raw(SECONDS_PER_YEAR).div(Decimal::raw(dt_sec));
    Ok(delta.mul(per_year))
}

/// The ring of recorded rates and its bookkeeping.
#[derive(Clone, Debug, PartialEq, Eq)]
pub struct RateRing {
    /// Block time, in nanoseconds, of the last record.
    pub last_er_update: u64,
    /// How many records were ever made.
    pub next_hour_counter: u64,
    /// The record of slot `i` is `rates[i]`; record `n` goes to slot
    /// `n % periods_to_keep`.
    pub rates: Vec<ExchangeRate>,
}

/// The ring holds a record for each of its first `min(counter, periods)`
/// slots, and the record of the last update sits in the last slot written.
pub open spec fn ring_wf(ring: RateRing, periods: u64) -> bool {
    &&& periods > 0
    &&& ring.rates@.len() == if ring.next_hour_counter < periods {
        ring.next_hour_counter as int
    } else {
        periods as int
    }
}

/// Instantiates the calculator: refused for an invalid owner or core
/// contract; the ring starts empty.
pub fn instantiate(owner: &AddressInput, core_contract: &AddressInput, period_timeout: u64, periods_to_keep: u64) -> (r: Result<(Config, RateRing), ContractError>)
    ensures
        r is Ok <==> owner.valid && core_contract.valid,
        r is Err ==> r == Err::<(Config, RateRing), ContractError>(ContractError::InvalidAddress),
        r is Ok ==> {
            let (c, ring) = r->Ok_0;
            &&& c.core_contract@ == core_contract.address@
            &&& c.period_timeout == period_timeout
            &&& c.periods_to_keep == periods_to_keep
            &&& ring.last_er_update == 0
            &&& ring.next_hour_counter == 0
            &&& ring.rates@.len() == 0
        },
{
    if !owner.valid || !core_contract.valid {
        return Err(ContractError::InvalidAddress);
    }
    Ok(
        (
            Config { core_contract: core_contract.address.clone(), period_timeout, periods_to_keep },
            RateRing { last_er_update: 0, next_hour_counter: 0, rates: Vec::new() },
        ),
    )
}

/// Records the core contract's exchange rate at the block of `height` and
/// time `now` (nanoseconds): refused while `period_timeout` seconds have not
/// passed since the last record; else the record takes the next slot of
/// the ring, overwriting the oldest once the ring is full.
pub fn execute_update_exchange_rates(cfg: &Config, ring: &RateRing, height: u64, now: u64, exchange_rate: Decimal) -> (r: Result<RateRing, ContractError>)
    requires
        ring_wf(*ring, cfg.periods_to_keep),
        ring.last_er_update + cfg.period_timeout * NANOS_PER_SECOND <= u64::MAX,
        ring.next_hour_counter < u64::MAX,
    ensures
        ring.last_er_update + cfg.period_timeout * NANOS_PER_SECOND > now ==> r == Err::<RateRing, ContractError>(
            ContractError::TooEarly,
        ),
        ring.last_er_update + cfg.period_timeout * NANOS_PER_SECOND <= now ==> r is Ok && {
            let new = r->Ok_0;
            let slot = ring.next_hour_counter % cfg.periods_to_keep;
            let rec = ExchangeRate { height, timestamp: now, exchange_rate };
            &&& ring_wf(new, cfg.periods_to_keep)
            &&& new.last_er_update == now
            &&& new.next_hour_counter == ring.next_hour_counter + 1
            &&& new.rates@ == if slot < ring.rates@.len() {
                ring.rates@.update(slot as int, rec)
            } else {
                ring.rates@.push(rec)
            }
        },
{
    if ring.last_er_update + cfg.period_timeout * NANOS_PER_SECOND > now {
        return Err(ContractError::TooEarly);
    }
    let slot = ring.next_hour_counter % cfg.periods_to_keep;
    let rec = ExchangeRate { height, timestamp: now, exchange_rate };
    let c = ring.next_hour_counter;
    let p = cfg.periods_to_keep;
    proof {
        assert(c < p ==> c % p == c) by (nonlinear_arith)
            requires
                p > 0,
        ;
        assert(c % p < p) by (nonlinear_arith)
            requires
                p > 0,
        ;
    }
    let mut rates = ring.rates.clone();
    if (slot as usize) < rates.len() {
        rates.set(slot as usize, rec);
    } else {
        rates.push(rec);
    }
    Ok(RateRing { last_er_update: now, next_hour_counter: ring.next_hour_counter + 1, rates })
}

/// The slot index of record `n`.
pub open spec fn slot_of(n: int, periods: u64) -> int {
    n % (periods as int)
}

/// The record the yield query starts from: `span` records before the last
/// one, or the first record when there are fewer. While the ring is full it
/// holds every record from `periods` before the last on, and before that
/// every record, so that record is always held.
pub open spec fn start_record(ring: RateRing, span: u64) -> int {
    let end = ring.next_hour_counter - 1;
    if end >= span {
        end - span
    } else {
        0
    }
}

/// The yield over the last `time_span_hours` records: refused for a span of
/// the ring's size or more and before any record; else from the record
/// `time_span_hours` before the last one (or the earliest held) to the last.
pub fn query_apy(cfg: &Config, ring: &RateRing, time_span_hours: u64) -> (r: Result<Apy, ContractError>)
    requires
        cfg.periods_to_keep > 0 ==> ring_wf(*ring, cfg.periods_to_keep),
        time_span_hours < cfg.periods_to_keep && ring.next_hour_counter > 0 ==> !predict_apy_aborts(
            ring.rates@[slot_of(start_record(*ring, time_span_hours), cfg.periods_to_keep)],
            ring.rates@[slot_of(ring.next_hour_counter - 1, cfg.periods_to_keep)],
        ),
    ensures
        time_span_hours >= cfg.periods_to_keep ==> r == Err::<Apy, ContractError>(ContractError::TimespanOutOfRange),
        time_span_hours < cfg.periods_to_keep && ring.next_hour_counter == 0 ==> r == Err::<Apy, ContractError>(
            ContractError::NotFound,
        ),
        time_span_hours < cfg.periods_to_keep && ring.next_hour_counter > 0 ==> {
            let start = ring.rates@[slot_of(start_record(*ring, time_span_hours), cfg.periods_to_keep)];
            let end = ring.rates@[slot_of(ring.next_hour_counter - 1, cfg.periods_to_keep)];
            &&& end.timestamp <= start.timestamp ==> r == Err::<Apy, ContractError>(ContractError::EndBeforeStart)
            &&& end.timestamp > start.timestamp ==> r is Ok && r->Ok_0.start_exchange_rate == start
                && r->Ok_0.end_exchange_rate == end && r->Ok_0.apy.atomics == apy_spec(start, end)
        },
        r is Ok && ring.next_hour_counter > time_span_hours ==> r->Ok_0.start_exchange_rate == ring.rates@[(
        ring.next_hour_counter - 1 - time_span_hours) % (cfg.periods_to_keep as int)],
        r is Ok && ring.next_hour_counter <= time_span_hours ==> r->Ok_0.start_exchange_rate == ring.rates@[0],
        r is Ok ==> r->Ok_0.end_exchange_rate == ring.rates@[(ring.next_hour_counter - 1) % (cfg.periods_to_keep as int)],
{
    let p = cfg.periods_to_keep;
    if time_span_hours >= p {
        return Err(ContractError::TimespanOutOfRange);
    }
    if ring.next_hour_counter == 0 {
        return Err(ContractError::NotFound);
    }
    let end_counter = ring.next_hour_counter - 1;
    let start_counter = if end_counter >= time_span_hours {
        end_counter - time_span_hours
    } else {
        0
    };
    proof {
        if ring.next_hour_counter < p {
            assert(start_counter % p == start_counter) by (nonlinear_arith)
                requires
                    start_counter < p,
            ;
        } else {
            assert(start_counter % p < p) by (nonlinear_arith)
                requires
                    p > 0,
            ;
        }
        if ring.next_hour_counter < p {
            assert(end_counter % p == end_counter) by (nonlinear_arith)
                requires
                    end_counter < p,
            ;
        } else {
            assert(end_counter % p < p) by (nonlinear_arith)
                requires
                    p > 0,
            ;
        }
    }
    let n: usize = ring.rates.len();
    assert(start_counter % p < ring.rates@.len());
    assert(end_counter % p < ring.rates@.len());
    let end = ring.rates[(end_counter % p) as usize];
    let start = ring.rates[(start_counter % p) as usize];
    assert(start_counter as int == start_record(*ring, time_span_hours));
    assert(((start_counter % p) as usize) as int == slot_of(start_counter as int, p));
    assert(((end_counter % p) as usize) as int == slot_of(end_counter as int, p));
    assert(start == ring.rates@[slot_of(start_record(*ring, time_span_hours), p)]);
    assert(end == ring.rates@[slot_of(ring.next_hour_counter - 1, p)]);
    match predict_apy(&start, &end) {
        Ok(apy) => Ok(Apy { start_exchange_rate: start, end_exchange_rate: end, apy }),
        Err(e) => Err(e),
    }
}

} // verus!
