use std::str::FromStr;

use maxbtc::address::AddressInput;
use maxbtc::apy_calculator::{
    Apy, Config, ContractError, ExchangeRate, RateRing, execute_update_exchange_rates, instantiate, predict_apy, query_apy,
};
use maxbtc::decimal::Decimal;

const SEC: u64 = 1_000_000_000;

fn dec(s: &str) -> Decimal {
    Decimal::raw(cosmwasm_std::Decimal::from_str(s).unwrap().atomics().u128())
}

fn rate(height: u64, r: Decimal, ts: u64) -> ExchangeRate {
    ExchangeRate { height, exchange_rate: r, timestamp: ts }
}

fn config(period_timeout: u64, periods_to_keep: u64) -> Config {
    Config { core_contract: "core_contract1".to_string(), period_timeout, periods_to_keep }
}

#[test]
fn test_predict_apy() {
    let test_data = vec![
        (rate(1, Decimal::one(), SEC), rate(10, dec("2.0"), 86400 * SEC), dec("365.004224585932707554")),
        (rate(1, Decimal::one(), SEC), rate(10, dec("1.01"), 2592000 * SEC), dec("0.121666713605985187")),
        (rate(1, Decimal::one(), SEC), rate(10, dec("1.00000023"), 15552000 * SEC), dec("0.000000466388918877")),
        (
            rate(31687541, dec("1.005776802074055183"), 1750880678975816708),
            rate(31718524, dec("1.005776802074177447"), 1750923797332357316),
            dec("0.000000000088906229"),
        ),
    ];
    for (start, end, expected) in test_data {
        let apy = predict_apy(&start, &end).unwrap();
        assert_eq!(apy, expected);
    }
}

#[test]
fn test_predict_apy_end_before_start() {
    let a = rate(1, Decimal::one(), 10 * SEC);
    assert_eq!(predict_apy(&a, &a).unwrap_err(), ContractError::EndBeforeStart);
}

#[test]
fn tests_test_instantiate_general() {
    let owner = AddressInput { address: "owner".to_string(), valid: true };
    let core = AddressInput { address: "core_contract1".to_string(), valid: true };
    let (cfg, ring) = instantiate(&owner, &core, 1, 1).unwrap();
    assert_eq!(cfg, config(1, 1));
    assert_eq!(ring, RateRing { last_er_update: 0, next_hour_counter: 0, rates: vec![] });
}

#[test]
fn test_query_apy() {
    let ring = RateRing {
        last_er_update: 0,
        next_hour_counter: 2,
        rates: vec![rate(10, Decimal::one(), SEC), rate(100, dec("2.0"), 86400 * SEC)],
    };
    let response = query_apy(&config(1, 2), &ring, 1).unwrap();
    assert_eq!(
        response,
        Apy {
            start_exchange_rate: rate(10, Decimal::one(), SEC),
            end_exchange_rate: rate(100, dec("2.0"), 86400 * SEC),
            apy: dec("365.004224585932707554"),
        }
    );
}

#[test]
fn test_query_apy_time_span_hours_out_of_range() {
    let ring = RateRing {
        last_er_update: 0,
        next_hour_counter: 3,
        rates: vec![rate(10, Decimal::one(), SEC), rate(100, dec("2.0"), 86400 * SEC)],
    };
    assert_eq!(query_apy(&config(1, 2), &ring, 3).unwrap_err(), ContractError::TimespanOutOfRange);
}

#[test]
fn test_update_exchange_rate_too_early() {
    let now = 1_571_797_419_879_305_533;
    let ring = RateRing { last_er_update: now, next_hour_counter: 0, rates: vec![] };
    assert_eq!(
        execute_update_exchange_rates(&config(1000, 2), &ring, 12345, now, Decimal::one()).unwrap_err(),
        ContractError::TooEarly
    );
}

#[test]
fn test_update_exchange_rate_too_early_after_second_call() {
    let now = 1_571_797_419_879_305_533;
    let ring = RateRing { last_er_update: 0, next_hour_counter: 0, rates: vec![] };
    let ring = execute_update_exchange_rates(&config(10, 2), &ring, 12345, now, Decimal::one()).unwrap();
    assert_eq!(
        execute_update_exchange_rates(&config(10, 2), &ring, 12345, now, Decimal::one()).unwrap_err(),
        ContractError::TooEarly
    );
}

#[test]
fn test_update_exchange_rate_two_hours_and_query() {
    let cfg = config(10, 2);
    let ring = RateRing { last_er_update: 0, next_hour_counter: 0, rates: vec![] };
    let ring = execute_update_exchange_rates(&cfg, &ring, 1, 60 * SEC, dec("1.01")).unwrap();
    assert_eq!(ring.next_hour_counter, 1);
    assert_eq!(ring.rates[0], rate(1, dec("1.01"), 60 * SEC));
    let ring = execute_update_exchange_rates(&cfg, &ring, 10, 120 * SEC, dec("1.02")).unwrap();
    assert_eq!(ring.next_hour_counter, 2);
    assert_eq!(ring.rates[1], rate(10, dec("1.02"), 120 * SEC));
    let response = query_apy(&cfg, &ring, 1).unwrap();
    assert_eq!(
        response,
        Apy {
            start_exchange_rate: rate(1, dec("1.01"), 60 * SEC),
            end_exchange_rate: rate(10, dec("1.02"), 120 * SEC),
            apy: dec("5203.96039603960344"),
        }
    );
    let ring = execute_update_exchange_rates(&cfg, &ring, 20, 180 * SEC, dec("1.03")).unwrap();
    assert_eq!(ring.next_hour_counter, 3);
    assert_eq!(ring.rates.len(), 2);
    assert_eq!(ring.rates[0], rate(20, dec("1.03"), 180 * SEC));
}

#[test]
fn test_update_exchange_rate_five_hours() {
    let period_timeout = 10;
    let cfg = config(period_timeout, 5);
    let rates = ["1.01", "1.02", "1.03", "1.04", "1.05"];
    let mut ring = RateRing { last_er_update: 0, next_hour_counter: 0, rates: vec![] };
    let mut now = 60 * SEC;
    for (i, r) in rates.iter().enumerate() {
        ring = execute_update_exchange_rates(&cfg, &ring, 12345, now, dec(r)).unwrap();
        assert_eq!(ring.next_hour_counter, i as u64 + 1);
        assert_eq!(ring.rates[i], rate(12345, dec(r), 60_000_000_000 + (i as u64) * 10_000_000_000));
        now += period_timeout * SEC;
    }
}
