use std::str::FromStr;

use maxbtc::address::AddressInput;
use maxbtc::coin::{Coin, PaymentError};
use maxbtc::decimal::Decimal;
use maxbtc::neutron_core::{
    Batch, Config, ContractError, ContractState, CoreMsg, CoreState, InstantiateMsg, SignedAmount, TickInputs,
    TickStage, UpdateConfigMsg, execute_deposit, execute_flush_deposits, execute_tick, execute_update_config,
    execute_withdraw, simulate_deposit,
    finalized_batches_page, finalized_batches_page_size, get_deposit_coin, instantiate,
};

const NOW: u64 = 1_571_797_419;
const MAXBTC: &str = "factory/token_contract_addr/maxbtc";

fn dec(s: &str) -> Decimal {
    Decimal::raw(cosmwasm_std::Decimal::from_str(s).unwrap().atomics().u128())
}

fn valid(a: &str) -> AddressInput {
    AddressInput { address: a.to_string(), valid: true }
}

fn default_instantiate_msg() -> InstantiateMsg {
    InstantiateMsg {
        owner: valid("owner_addr"),
        operator: valid("operator_addr"),
        token_contract: valid("token_contract_addr"),
        factory_contract: valid("factory_contract_addr"),
        deposit_forwarder_contract: valid("forwarder_addr"),
        deposit_denom: "wBTC".to_string(),
        deposit_decimals: 6,
        deposit_cost: Decimal::percent(1),
        deposits_cap: None,
        allowlist_contract: valid("allow_list_addr"),
        exchange_rate_provider_contract: valid("exchange_rate_provider_addr"),
        exchange_rate_stale_period: 60,
        fee_collector_contract: valid("fee_collector_addr"),
        waitosaur_observer_contract: valid("waitosaur_addr"),
        waitosaur_holder_contract: valid("waitosaur_holder_contract"),
        withdrawal_manager_contract: valid("withdrawal_manager_addr"),
    }
}

fn setup_contract() -> (Config, CoreState) {
    instantiate(&default_instantiate_msg()).unwrap()
}

fn no_aum() -> SignedAmount {
    SignedAmount { negative: false, high: 0, low: 0 }
}

fn do_deposit(cfg: &Config, funds: Vec<Coin>, allowed: bool, rate: Decimal, published_at: u64, min: Option<u128>) -> Result<(u128, Vec<CoreMsg>), ContractError> {
    deposit_with_total(cfg, funds, allowed, rate, published_at, min, 0).map(|(m, msgs, _)| (m, msgs))
}

fn deposit_with_total(
    cfg: &Config,
    funds: Vec<Coin>,
    allowed: bool,
    rate: Decimal,
    published_at: u64,
    min: Option<u128>,
    total: u128,
) -> Result<(u128, Vec<CoreMsg>, u128), ContractError> {
    execute_deposit(
        cfg,
        NOW,
        &funds,
        &"recipient_addr".to_string(),
        true,
        allowed,
        no_aum(),
        rate,
        published_at,
        min,
        &MAXBTC.to_string(),
        total,
    )
}

fn tick_inputs(balance: u128, rate: Decimal) -> TickInputs {
    TickInputs {
        deposit_balance: balance,
        twaer: rate,
        published_at: NOW,
        observer_locked: false,
        holder_locked_amount: None,
    }
}

fn batch(id: u64, requested: u128, burned: u128, collected: u128) -> Batch {
    Batch {
        batch_id: id,
        btc_requested: requested,
        maxbtc_burned: burned,
        collected_amount: collected,
        deposit_decimals: 6,
        collector_historical_balance: 0,
    }
}

#[test]
fn test_core_instantiate_success() {
    let (cfg, st) = setup_contract();
    assert!(!cfg.paused);
    assert_eq!(cfg.deposit_decimals, 6u32);
    assert_eq!(cfg.deposit_denom, "wBTC");
    assert_eq!(cfg.deposit_cost, Decimal::percent(1));
    assert_eq!(st.fsm, ContractState::Idle);
    assert_eq!(st.active_batch, batch(1, 0, 0, 0));
    assert_eq!(st.batch_id_counter, Some(1));
}

#[test]
fn test_instantiate_refuses_cost_of_one() {
    let mut msg = default_instantiate_msg();
    msg.deposit_cost = Decimal::one();
    assert_eq!(instantiate(&msg).unwrap_err(), ContractError::DepositCostTooHigh);
}

#[test]
fn test_withdraw_success() {
    let (cfg, st) = setup_contract();
    let funds = vec![Coin::new(1_000_000, MAXBTC.to_string())];
    let (st2, msgs) = execute_withdraw(
        &cfg,
        &st,
        &funds,
        &"depositor".to_string(),
        true,
        true,
        &MAXBTC.to_string(),
        &cfg.get_redemption_denom("token_contract_addr".to_string(), 1),
        false,
    )
    .unwrap();
    assert_eq!(msgs.len(), 3);
    assert_eq!(
        msgs[0],
        CoreMsg::Burn { token_contract: "token_contract_addr".to_string(), funds: Coin::new(1_000_000, MAXBTC.to_string()) }
    );
    assert_eq!(
        msgs[1],
        CoreMsg::CreateRedemptionToken {
            token_contract: "token_contract_addr".to_string(),
            redemption_subdenom: "redemption/batch/1".to_string(),
        }
    );
    assert_eq!(
        msgs[2],
        CoreMsg::Mint {
            token_contract: "token_contract_addr".to_string(),
            amount: Coin::new(1_000_000, "factory/token_contract_addr/redemption/batch/1".to_string()),
            recipient: "depositor".to_string(),
        }
    );
    assert_eq!(st2.active_batch.maxbtc_burned, 1_000_000);
}

#[test]
fn test_withdraw_no_denom_creation() {
    let (cfg, st) = setup_contract();
    let funds = vec![Coin::new(1_000_000, MAXBTC.to_string())];
    let (_, msgs) = execute_withdraw(
        &cfg,
        &st,
        &funds,
        &"depositor".to_string(),
        true,
        true,
        &MAXBTC.to_string(),
        &cfg.get_redemption_denom("token_contract_addr".to_string(), 1),
        true,
    )
    .unwrap();
    assert_eq!(msgs.len(), 2);
    assert!(matches!(msgs[0], CoreMsg::Burn { .. }));
    assert!(matches!(msgs[1], CoreMsg::Mint { .. }));
}

#[test]
fn test_withdraw_paused() {
    let (mut cfg, st) = setup_contract();
    cfg.paused = true;
    let funds = vec![Coin::new(1_000_000, MAXBTC.to_string())];
    let r = execute_withdraw(&cfg, &st, &funds, &"depositor".to_string(), true, true, &MAXBTC.to_string(), &"x".to_string(), true);
    match r {
        Err(ContractError::ContractPaused) => {},
        _ => panic!("Unexpected result"),
    }
}

#[test]
fn test_withdraw_not_allowlisted() {
    let (cfg, st) = setup_contract();
    let funds = vec![Coin::new(1_000_000, MAXBTC.to_string())];
    let r = execute_withdraw(&cfg, &st, &funds, &"depositor".to_string(), true, false, &MAXBTC.to_string(), &"x".to_string(), true);
    match r {
        Err(ContractError::AddressNotAllowed) => {},
        _ => panic!("Unexpected result"),
    }
}

#[test]
fn test_withdraw_wrong_denom() {
    let (cfg, st) = setup_contract();
    let funds = vec![Coin::new(1_000_000, "wBTC".to_string())];
    let r = execute_withdraw(&cfg, &st, &funds, &"depositor".to_string(), true, true, &MAXBTC.to_string(), &"x".to_string(), true);
    match r {
        Err(ContractError::PaymentError(PaymentError::MissingDenom(denom))) => assert_eq!(denom, MAXBTC),
        _ => panic!("Unexpected result"),
    }
}

#[test]
fn tests_test_first_deposit_success() {
    let (cfg, _) = setup_contract();
    let (minted, msgs) = do_deposit(&cfg, vec![Coin::new(1_000_000, "wBTC".to_string())], true, Decimal::one(), NOW, None).unwrap();
    assert_eq!(msgs.len(), 1);
    assert_eq!(minted, 990_000);
    assert_eq!(
        msgs[0],
        CoreMsg::Mint {
            token_contract: "token_contract_addr".to_string(),
            amount: Coin::new(990_000, MAXBTC.to_string()),
            recipient: "recipient_addr".to_string(),
        }
    );
}

#[test]
fn test_deposit_less_than_expected() {
    let (cfg, _) = setup_contract();
    let err = do_deposit(&cfg, vec![Coin::new(1_000_000, "wBTC".to_string())], true, Decimal::one(), NOW, Some(1_000_001)).unwrap_err();
    assert_eq!(err, ContractError::SlippageLimitExceeded { requested: 1_000_001, actual: 990_000 });
}

#[test]
fn test_deposit_exchange_rate_stale() {
    let (cfg, _) = setup_contract();
    let err = do_deposit(&cfg, vec![Coin::new(1_000_000, "wBTC".to_string())], true, Decimal::one(), 0, None).unwrap_err();
    assert_eq!(err, ContractError::ERDataStale);
}

#[test]
fn tests_test_deposit_contract_paused() {
    let (mut cfg, _) = setup_contract();
    cfg.paused = true;
    let err = do_deposit(&cfg, vec![Coin::new(1_000_000, "wBTC".to_string())], true, Decimal::one(), NOW, None).unwrap_err();
    assert_eq!(err, ContractError::ContractPaused);
}

#[test]
fn tests_test_deposit_exceeds_cap() {
    let (mut cfg, _) = setup_contract();
    cfg.deposits_cap = Some(100_000_000);
    let aum = SignedAmount { negative: false, high: 0, low: 110_000_000 };
    let err = execute_deposit(
        &cfg,
        NOW,
        &vec![Coin::new(1_000_000, "wBTC".to_string())],
        &"recipient_addr".to_string(),
        true,
        true,
        aum,
        Decimal::one(),
        NOW,
        None,
        &MAXBTC.to_string(),
        0,
    )
    .unwrap_err();
    assert_eq!(err, ContractError::DepositCapExceeded);
}

#[test]
fn tests_test_deposit_not_allowlisted() {
    let (cfg, _) = setup_contract();
    let err = do_deposit(&cfg, vec![Coin::new(1_000_000, "wBTC".to_string())], false, Decimal::one(), NOW, None).unwrap_err();
    assert_eq!(err, ContractError::AddressNotAllowed);
}

#[test]
fn tests_test_deposit_no_funds() {
    let (cfg, _) = setup_contract();
    let err = do_deposit(&cfg, vec![], true, Decimal::one(), NOW, None).unwrap_err();
    assert_eq!(err, ContractError::PaymentError(PaymentError::NoFunds));
}

#[test]
fn tests_test_deposit_multiple_funds() {
    let (cfg, _) = setup_contract();
    let funds = vec![Coin::new(1_000_000, "wBTC".to_string()), Coin::new(2_000_000, "anotherDenom".to_string())];
    let err = do_deposit(&cfg, funds, true, Decimal::one(), NOW, None).unwrap_err();
    assert_eq!(err, ContractError::PaymentError(PaymentError::MultipleDenoms));
}

#[test]
fn tests_test_deposit_zero_amount() {
    let (cfg, _) = setup_contract();
    let err = do_deposit(&cfg, vec![Coin::new(0, "wBTC".to_string())], true, Decimal::one(), NOW, None).unwrap_err();
    assert_eq!(err, ContractError::PaymentError(PaymentError::NoFunds));
}

#[test]
fn tests_test_deposit_wrong_denom() {
    let (cfg, _) = setup_contract();
    let err = do_deposit(&cfg, vec![Coin::new(1_000_000, "ETH".to_string())], true, Decimal::one(), NOW, None).unwrap_err();
    assert_eq!(err, ContractError::PaymentError(PaymentError::MissingDenom("wBTC".to_string())));
}

#[test]
fn test_withdraw_pending_tick_collect_ceffu_amount() {
    let (cfg, st) = setup_contract();
    let st = CoreState {
        fsm: ContractState::WithdrawPending,
        withdrawing_batch: Some(Batch { btc_requested: 200_000, ..batch(1, 200_000, 200_000, 150_000) }),
        ..st
    };
    let mut inp = tick_inputs(0, Decimal::one());
    inp.holder_locked_amount = Some(50_000);
    let res = match execute_tick(&cfg, &st, &"operator_addr".to_string(), NOW, &inp) {
        Ok(r) => r,
        Err(e) => panic!("Unexpected error: {e:?}"),
    };
    assert_eq!(res.msgs, vec![CoreMsg::WaitosaurUnlock { contract: "waitosaur_holder_contract".to_string() }]);
    assert_eq!(res.stage, TickStage::WithdrawPending);
    assert_eq!(res.amount, 50_000);
    assert_eq!(res.state.withdrawing_batch, Some(batch(1, 200_000, 200_000, 200_000)));
    assert_eq!(res.state.fsm, ContractState::WithdrawNeutron);
}

#[test]
fn test_idle_tick_wrong_operator() {
    let (cfg, st) = setup_contract();
    match execute_tick(&cfg, &st, &"random_user".to_string(), NOW, &tick_inputs(0, Decimal::one())) {
        Err(e) => assert_eq!(e, ContractError::Unauthorized),
        Ok(_) => panic!("Should refuse"),
    }
}

#[test]
fn test_idle_tick_withdraw_and_stay_idle() {
    let (cfg, st) = setup_contract();
    let st = CoreState { active_batch: batch(1, 0, 100_000, 0), ..st };
    let res = match execute_tick(&cfg, &st, &"operator_addr".to_string(), NOW, &tick_inputs(200_000, dec("0.95"))) {
        Ok(r) => r,
        Err(e) => panic!("Unexpected error: {e:?}"),
    };
    assert_eq!(
        res.msgs,
        vec![CoreMsg::BankSend { to_address: "withdrawal_manager_addr".to_string(), amount: Coin::new(95_000, "wBTC".to_string()) }]
    );
    assert_eq!(res.amount, 95_000);
    assert_eq!(res.state.active_batch, batch(2, 0, 0, 0));
    assert_eq!(res.finalized, Some(batch(1, 95_000, 100_000, 95_000)));
    assert_eq!(res.state.fsm, ContractState::Idle);
}

#[test]
fn test_deposit_neutron_tick_locked() {
    let (cfg, st) = setup_contract();
    let st = CoreState { fsm: ContractState::DepositNeutron, ..st };
    let mut inp = tick_inputs(0, Decimal::one());
    inp.observer_locked = true;
    match execute_tick(&cfg, &st, &"operator_addr".to_string(), NOW, &inp) {
        Err(e) => assert_eq!(e, ContractError::WaitosaurLocked),
        Ok(_) => panic!("Should refuse"),
    }
}

#[test]
fn test_ticks_cycle() {
    let (cfg, st) = setup_contract();
    let st = CoreState { active_batch: batch(1, 0, 200_000, 0), ..st };
    let res = match execute_tick(&cfg, &st, &"operator_addr".to_string(), NOW, &tick_inputs(180_000, dec("0.95"))) {
        Ok(r) => r,
        Err(e) => panic!("Unexpected error: {e:?}"),
    };
    assert_eq!(
        res.msgs,
        vec![CoreMsg::BankSend { to_address: "withdrawal_manager_addr".to_string(), amount: Coin::new(180_000, "wBTC".to_string()) }]
    );
    assert_eq!(res.state.active_batch, batch(2, 0, 0, 0));
    assert_eq!(res.state.withdrawing_batch, Some(batch(1, 190_000, 200_000, 180_000)));
    assert_eq!(res.state.fsm, ContractState::WithdrawJLP);
    assert_eq!(res.finalized, None);
}

#[test]
fn test_withdraw_ticks_cycle() {
    let (cfg, st) = setup_contract();
    let op = "operator_addr".to_string();
    let st = CoreState { active_batch: batch(1, 0, 200_000, 0), ..st };
    let r1 = match execute_tick(&cfg, &st, &op, NOW, &tick_inputs(150_000, Decimal::one())) {
        Ok(r) => r,
        Err(e) => panic!("Unexpected error: {e:?}"),
    };
    assert_eq!(
        r1.msgs,
        vec![CoreMsg::BankSend { to_address: "withdrawal_manager_addr".to_string(), amount: Coin::new(150_000, "wBTC".to_string()) }]
    );
    assert_eq!(r1.state.fsm, ContractState::WithdrawJLP);
    let r2 = match execute_tick(&cfg, &r1.state, &op, NOW, &tick_inputs(0, Decimal::one())) {
        Ok(r) => r,
        Err(e) => panic!("Unexpected error: {e:?}"),
    };
    assert_eq!(r2.state.fsm, ContractState::WithdrawPending);
    let mut inp = tick_inputs(0, Decimal::one());
    inp.holder_locked_amount = Some(50_000);
    let r3 = match execute_tick(&cfg, &r2.state, &op, NOW, &inp) {
        Ok(r) => r,
        Err(e) => panic!("Unexpected error: {e:?}"),
    };
    assert_eq!(r3.state.fsm, ContractState::WithdrawNeutron);
    let r4 = match execute_tick(&cfg, &r3.state, &op, NOW, &tick_inputs(0, Decimal::one())) {
        Ok(r) => r,
        Err(e) => panic!("Unexpected error: {e:?}"),
    };
    assert_eq!(r4.state.fsm, ContractState::Idle);
    assert_eq!(r4.state.withdrawing_batch, None);
    assert_eq!(r4.finalized, Some(batch(1, 200_000, 200_000, 200_000)));
}

#[test]
fn test_idle_tick_goes_to_deposit_neutron() {
    let (cfg, st) = setup_contract();
    let res = match execute_tick(&cfg, &st, &"operator_addr".to_string(), NOW, &tick_inputs(200_000, Decimal::one())) {
        Ok(r) => r,
        Err(e) => panic!("Unexpected error: {e:?}"),
    };
    assert_eq!(
        res.msgs,
        vec![
            CoreMsg::BankSend { to_address: "forwarder_addr".to_string(), amount: Coin::new(200_000, "wBTC".to_string()) },
            CoreMsg::WaitosaurLock { contract: "waitosaur_addr".to_string(), amount: 200_000 },
        ]
    );
    assert_eq!(res.stage, TickStage::FlushDeposits);
    assert_eq!(res.state.fsm, ContractState::DepositNeutron);
}

#[test]
fn test_ticks_deposit_cycle() {
    let (cfg, st) = setup_contract();
    let op = "operator_addr".to_string();
    let mut state = st;
    let expected = [ContractState::DepositNeutron, ContractState::DepositPending, ContractState::DepositJLP, ContractState::Idle];
    for (i, fsm) in expected.iter().enumerate() {
        let balance = if i == 0 { 200_000 } else { 0 };
        let res = match execute_tick(&cfg, &state, &op, NOW, &tick_inputs(balance, Decimal::one())) {
            Ok(r) => r,
            Err(e) => panic!("Unexpected error: {e:?}"),
        };
        assert_eq!(res.state.fsm, *fsm);
        state = res.state;
    }
    assert_eq!(state, CoreState { fsm: ContractState::Idle, ..st });
}

#[test]
fn test_update_config_refuses_high_cost_and_zero_period() {
    let (cfg, _) = setup_contract();
    let owner = Some("owner_addr".to_string());
    let none = UpdateConfigMsg {
        paused: None,
        operator: None,
        deposit_forwarder_contract: None,
        deposits_cap: None,
        deposit_cost: None,
        allowlist_contract: None,
        exchange_rate_provider_contract: None,
        fee_collector_contract: None,
        waitosaur_observer_contract: None,
        waitsaur_holder_contract: None,
        withdrawal_manager_contract: None,
        exchange_rate_stale_period: None,
        deposit_flush_period: None,
        owner: None,
    };
    let high = UpdateConfigMsg { deposit_cost: Some(Decimal::one()), ..none.clone() };
    assert_eq!(
        execute_update_config(&cfg, &owner, &"owner_addr".to_string(), &high).unwrap_err(),
        ContractError::DepositCostTooHigh
    );
    let zero = UpdateConfigMsg { exchange_rate_stale_period: Some(0), ..none.clone() };
    assert_eq!(
        execute_update_config(&cfg, &owner, &"owner_addr".to_string(), &zero).unwrap_err(),
        ContractError::StalePeriodMustBePositive
    );
    let bad = UpdateConfigMsg { operator: Some(AddressInput { address: "x".to_string(), valid: false }), ..none.clone() };
    assert_eq!(execute_update_config(&cfg, &owner, &"owner_addr".to_string(), &bad).unwrap_err(), ContractError::InvalidAddress);
    assert!(execute_update_config(&cfg, &owner, &"someone".to_string(), &none).is_err());
    let ok = UpdateConfigMsg { paused: Some(true), deposit_cost: Some(Decimal::percent(2)), ..none.clone() };
    let (new, new_owner) = execute_update_config(&cfg, &owner, &"owner_addr".to_string(), &ok).unwrap();
    assert!(new.paused);
    assert_eq!(new.deposit_cost, Decimal::percent(2));
    assert_eq!(new.operator, cfg.operator);
    assert_eq!(new_owner, None);
    let bad_owner = UpdateConfigMsg { owner: Some(AddressInput { address: "x".to_string(), valid: false }), ..none.clone() };
    assert_eq!(execute_update_config(&cfg, &owner, &"owner_addr".to_string(), &bad_owner).unwrap_err(), ContractError::InvalidAddress);
    let handover = UpdateConfigMsg { owner: Some(valid("new_owner")), deposit_flush_period: Some(86_400), ..none };
    let (new, new_owner) = execute_update_config(&cfg, &owner, &"owner_addr".to_string(), &handover).unwrap();
    assert_eq!(new_owner, Some("new_owner".to_string()));
    assert_eq!(new.deposit_flush_period, 86_400);
}

#[test]
fn test_public_flush_is_rate_limited() {
    let (cfg, _) = setup_contract();
    assert_eq!(cfg.deposit_flush_period, 0);
    let cfg = Config { deposit_flush_period: 3_600, ..cfg };
    // Before the period has passed nothing is sent.
    assert_eq!(execute_flush_deposits(&cfg, NOW, NOW + 3_599, 500).unwrap(), (NOW, vec![]));
    // After it the whole balance goes to the forwarder.
    assert_eq!(
        execute_flush_deposits(&cfg, NOW, NOW + 3_600, 500).unwrap(),
        (
            NOW + 3_600,
            vec![CoreMsg::BankSend { to_address: cfg.deposit_forwarder_contract.clone(), amount: Coin::new(500, "wBTC".to_string()) }]
        )
    );
    assert_eq!(execute_flush_deposits(&cfg, NOW, NOW + 7_200, 0).unwrap(), (NOW + 7_200, vec![]));
    let paused = Config { paused: true, ..cfg };
    assert_eq!(execute_flush_deposits(&paused, NOW, NOW + 7_200, 5).unwrap_err(), ContractError::ContractPaused);
}

#[test]
fn test_deposit_adds_to_the_total() {
    let (cfg, _) = setup_contract();
    let (_, _, total) =
        deposit_with_total(&cfg, vec![Coin::new(1_000_000, "wBTC".to_string())], true, Decimal::one(), NOW, None, 250).unwrap();
    assert_eq!(total, 1_000_250);
}

#[test]
fn test_simulation_matches_deposit() {
    let (cfg, _) = setup_contract();
    let (minted, _) = do_deposit(&cfg, vec![Coin::new(1_000_000, "wBTC".to_string())], true, Decimal::percent(110), NOW, None).unwrap();
    assert_eq!(simulate_deposit(&cfg, NOW, Decimal::percent(110), NOW, 1_000_000), Ok(minted));
}

#[test]
fn test_get_deposit_coin() {
    assert_eq!(get_deposit_coin("wBTC".to_string(), vec![]).unwrap_err(), ContractError::NoFundsSent);
    assert_eq!(
        get_deposit_coin("wBTC".to_string(), vec![Coin::new(1, "wBTC".to_string()), Coin::new(1, "x".to_string())]).unwrap_err(),
        ContractError::InvalidDepositAmount
    );
    assert_eq!(
        get_deposit_coin("wBTC".to_string(), vec![Coin::new(1, "ETH".to_string())]).unwrap_err(),
        ContractError::InvalidDepositDenom { expected: "wBTC".to_string(), received: "ETH".to_string() }
    );
    assert_eq!(get_deposit_coin("wBTC".to_string(), vec![Coin::new(0, "wBTC".to_string())]).unwrap_err(), ContractError::InvalidDepositAmount);
    assert_eq!(get_deposit_coin("wBTC".to_string(), vec![Coin::new(7, "wBTC".to_string())]).unwrap(), Coin::new(7, "wBTC".to_string()));
}

#[test]
fn test_finalized_batches_paging() {
    assert_eq!(finalized_batches_page_size(None), 10);
    assert_eq!(finalized_batches_page_size(Some(500)), 100);
    assert_eq!(finalized_batches_page_size(Some(3)), 3);
    let batches: Vec<Batch> = (1..=5).map(|i| batch(i, 0, 0, 0)).collect();
    let page = finalized_batches_page(&batches, Some(2), Some(2));
    assert_eq!(page.iter().map(|b| b.batch_id).collect::<Vec<_>>(), vec![3, 4]);
    let page = finalized_batches_page(&batches, None, None);
    assert_eq!(page.len(), 5);
}
