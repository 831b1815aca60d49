use std::str::FromStr;

use maxbtc::coin::Coin;
use maxbtc::decimal::Decimal;
use maxbtc::liquidation_buffer::{
    CancelSimulation, Config, ContractError, DexCoin, LbMsg, SellPrice, UpdateConfig, clawback, get_burn_and_refund_messages,
    get_cancel_messages, get_deposit_price, get_virtual_contract_balance, run_sequence, update_config,
};

fn dec(s: &str) -> Decimal {
    Decimal::raw(cosmwasm_std::Decimal::from_str(s).unwrap().atomics().u128())
}

fn whole(n: u128) -> Decimal {
    Decimal::from_atomics(n, 0).unwrap()
}

fn send_amount_and_recipient(msg: &LbMsg) -> Option<(u128, String)> {
    if let LbMsg::BankSend { to_address, amount } = msg {
        return Some((amount.amount, to_address.clone()));
    }
    None
}

fn burn_and_refund(amount: u128, original: &str, new: &str) -> Vec<LbMsg> {
    get_burn_and_refund_messages(amount, dec(original), dec(new), &"treasury".to_string(), &"maxbtc".to_string()).unwrap()
}

#[test]
fn test_get_deposit_price_success() {
    let deposit_price = get_deposit_price(whole(100), 500).unwrap();
    assert_eq!(deposit_price, whole(105));
}

#[test]
fn test_get_deposit_price_zero_multiplier() {
    let deposit_price = get_deposit_price(whole(100), 0).unwrap();
    assert_eq!(deposit_price, whole(100));
}

#[test]
fn test_get_deposit_price_high_multiplier() {
    let deposit_price = get_deposit_price(whole(100), 10000).unwrap();
    assert_eq!(deposit_price, whole(200));
}

#[test]
fn test_get_deposit_price_fractional_exchange_rate() {
    let deposit_price = get_deposit_price(dec("1.1234"), 250).unwrap();
    assert_eq!(deposit_price, dec("1.151485"));
}

#[test]
fn test_get_deposit_price_out_of_range() {
    assert_eq!(get_deposit_price(whole(100), u128::MAX).unwrap_err(), ContractError::Unauthorized);
}

#[test]
fn test_get_burn_and_refund_messages_success() {
    let messages = burn_and_refund(1_000_000, "1.0", "1.05");
    assert_eq!(messages.len(), 2);
    assert_eq!(messages[0], LbMsg::Burn { amount: Coin::new(952_380, "maxbtc".to_string()) });
    let (send, recipient) = send_amount_and_recipient(&messages[1]).expect("Second message should be Bank::Send");
    assert_eq!(send, 47_620);
    assert_eq!(recipient, "treasury");
    assert_eq!(1_000_000 - send, 952_380);
}

#[test]
fn test_get_burn_and_refund_messages_zero_amount() {
    let messages = burn_and_refund(0, "1.0", "1.05");
    assert_eq!(messages.len(), 2);
    assert_eq!(messages[0], LbMsg::Burn { amount: Coin::new(0, "maxbtc".to_string()) });
    let (send, recipient) = send_amount_and_recipient(&messages[1]).expect("Second message should be Bank::Send");
    assert_eq!(send, 0);
    assert_eq!(recipient, "treasury");
}

#[test]
fn test_get_burn_and_refund_messages_equal_prices() {
    let messages = burn_and_refund(1_000_000, "1.0", "1.0");
    assert_eq!(messages.len(), 2);
    let (send, recipient) = send_amount_and_recipient(&messages[1]).expect("Second message should be Bank::Send");
    assert_eq!(send, 0);
    assert_eq!(recipient, "treasury");
    assert_eq!(1_000_000 - send, 1_000_000);
}

#[test]
fn test_get_burn_and_refund_messages_large_price_increase() {
    let messages = burn_and_refund(1_000_000, "1.0", "2.0");
    assert_eq!(messages.len(), 2);
    let (send, recipient) = send_amount_and_recipient(&messages[1]).expect("Second message should be Bank::Send");
    assert_eq!(send, 500_000);
    assert_eq!(recipient, "treasury");
    assert_eq!(1_000_000 - send, 500_000);
}

#[test]
fn test_get_burn_and_refund_messages_edge_case_amounts() {
    let messages = burn_and_refund(1, "1.0", "1.01");
    assert_eq!(messages.len(), 2);
    let (send, recipient) = send_amount_and_recipient(&messages[1]).expect("Second message should be Bank::Send");
    assert_eq!(send, 1);
    assert_eq!(recipient, "treasury");
    assert_eq!(1 - send, 0);
}

#[test]
fn test_burn_more_than_amount_refused() {
    let r = get_burn_and_refund_messages(100, dec("2.0"), dec("1.0"), &"treasury".to_string(), &"maxbtc".to_string());
    assert_eq!(r.unwrap_err(), ContractError::Unauthorized);
}

fn coin(denom: &str, amount: &str) -> Option<DexCoin> {
    Some(DexCoin { denom: denom.to_string(), amount: amount.to_string() })
}

fn sims() -> Vec<CancelSimulation> {
    vec![
        CancelSimulation { tranche_key: "a".to_string(), taker_coin_out: coin("maxbtc", "100"), maker_coin_out: coin("btc", "50") },
        CancelSimulation { tranche_key: "b".to_string(), taker_coin_out: coin("btc", "7"), maker_coin_out: coin("maxbtc", "not a number") },
        CancelSimulation { tranche_key: "c".to_string(), taker_coin_out: None, maker_coin_out: coin("maxbtc", "3") },
    ]
}

#[test]
fn test_cancel_messages_and_balances() {
    let out = get_cancel_messages(1_000, 10, &sims(), &"btc".to_string(), &"maxbtc".to_string());
    assert_eq!(out.btc, 1_050);
    assert_eq!(out.maxbtc, 110);
    assert_eq!(
        out.msgs,
        vec![
            LbMsg::CancelLimitOrder { tranche_key: "a".to_string() },
            LbMsg::CancelLimitOrder { tranche_key: "b".to_string() },
            LbMsg::CancelLimitOrder { tranche_key: "c".to_string() },
        ]
    );
    let (btc, maxbtc) = get_virtual_contract_balance(1_000, 10, &sims(), &"btc".to_string(), &"maxbtc".to_string());
    assert_eq!(btc, 1_057);
    assert_eq!(maxbtc, 113);
}

fn cfg() -> Config {
    Config {
        core_contract_address: "core".to_string(),
        btc_denom: "btc".to_string(),
        maxbtc_denom: "maxbtc".to_string(),
        price_multiplier_basis_points: 500,
        authority: "authority".to_string(),
        treasury: "treasury".to_string(),
    }
}

#[test]
fn test_run_sequence() {
    let msgs = run_sequence(&cfg(), Decimal::one(), 1_000, 1_050_000, &vec![]).unwrap();
    assert_eq!(msgs.len(), 3);
    assert_eq!(msgs[0], LbMsg::Burn { amount: Coin::new(999_999, "maxbtc".to_string()) });
    assert_eq!(msgs[1], LbMsg::BankSend { to_address: "treasury".to_string(), amount: Coin::new(50_001, "maxbtc".to_string()) });
    assert_eq!(
        msgs[2],
        LbMsg::PlaceLimitOrder {
            token_in: "btc".to_string(),
            token_out: "maxbtc".to_string(),
            amount_in: 1_000,
            limit_sell_price: SellPrice::Rate(dec("1.05")),
        }
    );
    let msgs = run_sequence(&cfg(), Decimal::one(), 1_000, 0, &vec![]).unwrap();
    assert_eq!(msgs.len(), 1);
}

#[test]
fn test_clawback_and_update_config() {
    let coin = Coin::new(5, "btc".to_string());
    assert_eq!(clawback(&cfg(), &"x".to_string(), &coin, Decimal::one(), 0, 0, &vec![]).unwrap_err(), ContractError::Unauthorized);
    let place = |n: u128| LbMsg::PlaceLimitOrder {
        token_in: "btc".to_string(),
        token_out: "maxbtc".to_string(),
        amount_in: n,
        limit_sell_price: SellPrice::Rate(Decimal::raw(1_050_000_000_000_000_000)),
    };
    assert_eq!(
        clawback(&cfg(), &"core".to_string(), &coin, Decimal::one(), 0, 0, &vec![]).unwrap(),
        vec![LbMsg::BankSend { to_address: "core".to_string(), amount: coin.clone() }, place(0)]
    );
    assert_eq!(
        clawback(&cfg(), &"core".to_string(), &coin, Decimal::one(), 20, 0, &vec![]).unwrap(),
        vec![LbMsg::BankSend { to_address: "core".to_string(), amount: coin.clone() }, place(15)]
    );
    let u = UpdateConfig {
        core_contract_address: None,
        btc_denom: None,
        maxbtc_denom: None,
        price_multiplier_basis_points: Some(250),
        authority: None,
        treasury: Some("t2".to_string()),
    };
    assert_eq!(update_config(&cfg(), &"x".to_string(), &u).unwrap_err(), ContractError::Unauthorized);
    let c = update_config(&cfg(), &"authority".to_string(), &u).unwrap();
    assert_eq!(c.price_multiplier_basis_points, 250);
    assert_eq!(c.treasury, "t2");
    assert_eq!(c.btc_denom, "btc");
}
