use maxbtc::address::AddressInput;
use maxbtc::coin::Coin;
use maxbtc::decimal::Decimal;
use maxbtc::minter::{
    Batch, CachedAUM, CachedER, Config, ContractError, ContractState, FlushAmounts, FlushStatus, InstantiateMsg,
    MinterMsg, MinterState, ProcessBatchStatus, Queried, execute_claim, execute_deposit, execute_flush_deposits,
    execute_process_active_batch, execute_withdraw,
    get_batch_id_from_redemption_coin, instantiate,
};

const NOW: u64 = 1_571_797_419;

fn valid(a: &str) -> AddressInput {
    AddressInput { address: a.to_string(), valid: true }
}

fn default_instantiate_msg() -> InstantiateMsg {
    InstantiateMsg {
        owner: valid("owner_addr"),
        aum_contract: valid("aum_addr"),
        liquidation_contract: valid("liq_buffer_addr"),
        deposit_pump_contract: valid("pump_addr"),
        collector_contract: valid("collector_addr"),
        treasury_address: valid("treasury_addr"),
        deposit_denom: "wBTC".to_string(),
        deposit_decimals: 6,
        maxbtc_denom: "maxbtc".to_string(),
        deposit_flush_period: 3600,
        batch_active_duration: 86400,
        batch_withdrawing_duration: 86400,
        accepted_withdrawable_percentage: Decimal::percent(5),
        liquidation_buffer_share: Decimal::percent(10),
        deposit_fee: Decimal::percent(1),
        cached_aum_tolerance: Decimal::percent(2),
        cached_er_ttl: 100,
        deposits_cap: None,
        deposits_allowlist: None,
    }
}

fn setup_contract() -> (Config, MinterState) {
    let res = instantiate(&default_instantiate_msg(), NOW).unwrap();
    assert_eq!(res.state.fsm, ContractState::Idle);
    (res.config, res.state)
}

fn queried(aum: u128, supply: u128) -> Queried {
    Queried {
        oracle_aum: aum,
        deposit_buffer: 0,
        liquidation_btc_balance: 0,
        liquidation_maxbtc_balance: 0,
        maxbtc_supply: supply,
        collector_balance: 0,
    }
}

fn deposit(st: &MinterState, cfg: &Config, q: &Queried, funds: Vec<Coin>, recipient: &str) -> Result<(u128, MinterState, Vec<MinterMsg>), ContractError> {
    execute_deposit(st, cfg, NOW, q, &funds, &recipient.to_string(), true).map(|r| (r.amount, r.state, r.msgs))
}

#[test]
fn test_minter_instantiate_success() {
    let res = instantiate(&default_instantiate_msg(), NOW).unwrap();
    assert_eq!(res.msgs, vec![MinterMsg::CreateDenom { subdenom: "maxbtc".to_string() }]);
    assert_eq!(res.config.owner, "owner_addr");
    assert_eq!(res.config.deposit_denom, "wBTC");
    assert_eq!(res.state.batch_id_counter, 1);
    assert_eq!(res.state.active_batch.unwrap().batch_id, 1);
    assert_eq!(res.state.cached_er, None);
}

#[test]
fn test_minter_first_deposit_success() {
    let (cfg, st) = setup_contract();
    let (minted, st2, msgs) = deposit(&st, &cfg, &queried(0, 0), vec![Coin::new(1_000_000, "wBTC".to_string())], "recipient_addr").unwrap();
    assert_eq!(msgs.len(), 1);
    assert_eq!(minted, 990_000);
    assert_eq!(st2.fsm, ContractState::Idle);
    assert!(st2.cached_er.is_none(), "Expected no cached ER in the Idle state");
}

#[test]
fn test_minter_deposit_contract_paused() {
    let (mut cfg, st) = setup_contract();
    cfg.paused = true;
    let err = deposit(&st, &cfg, &queried(0, 0), vec![Coin::new(1_000_000, "wBTC".to_string())], "recipient_addr").unwrap_err();
    assert_eq!(err, ContractError::ContractPaused);
}

#[test]
fn test_minter_deposit_exceeds_cap() {
    let (mut cfg, st) = setup_contract();
    cfg.deposits_cap = Some(100_000_000);
    let err = deposit(&st, &cfg, &queried(110_000_000, 0), vec![Coin::new(1_000_000, "wBTC".to_string())], "recipient_addr").unwrap_err();
    assert_eq!(err, ContractError::DepositCapExceeded);
}

#[test]
fn test_minter_deposit_not_allowlisted() {
    let (mut cfg, st) = setup_contract();
    cfg.deposits_allowlist = Some(vec!["alice".to_string(), "bob".to_string()]);
    let err = deposit(&st, &cfg, &queried(0, 0), vec![Coin::new(1_000_000, "wBTC".to_string())], "charlie").unwrap_err();
    assert_eq!(err, ContractError::Unauthorized);
    assert!(deposit(&st, &cfg, &queried(0, 0), vec![Coin::new(1_000_000, "wBTC".to_string())], "bob").is_ok());
}

#[test]
fn test_minter_deposit_no_funds() {
    let (cfg, st) = setup_contract();
    assert_eq!(deposit(&st, &cfg, &queried(0, 0), vec![], "recipient_addr").unwrap_err(), ContractError::NoFundsSent);
}

#[test]
fn test_minter_deposit_multiple_funds() {
    let (cfg, st) = setup_contract();
    let funds = vec![Coin::new(1_000_000, "wBTC".to_string()), Coin::new(2_000_000, "anotherDenom".to_string())];
    assert_eq!(deposit(&st, &cfg, &queried(0, 0), funds, "recipient_addr").unwrap_err(), ContractError::InvalidDepositAmount);
}

#[test]
fn test_minter_deposit_zero_amount() {
    let (cfg, st) = setup_contract();
    let funds = vec![Coin::new(0, "wBTC".to_string())];
    assert_eq!(deposit(&st, &cfg, &queried(0, 0), funds, "recipient_addr").unwrap_err(), ContractError::InvalidDepositAmount);
}

#[test]
fn test_minter_deposit_wrong_denom() {
    let (cfg, st) = setup_contract();
    let funds = vec![Coin::new(1_000_000, "ETH".to_string())];
    assert_eq!(
        deposit(&st, &cfg, &queried(0, 0), funds, "recipient_addr").unwrap_err(),
        ContractError::InvalidDepositDenom { expected: "wBTC".to_string(), received: "ETH".to_string() }
    );
}

#[test]
fn test_deposit_minted_zero_below_er() {
    let (cfg, st) = setup_contract();
    let (minted, _, msgs) = deposit(&st, &cfg, &queried(10_000_000_000, 100_000_000), vec![Coin::new(50, "wBTC".to_string())], "recipient_addr")
        .expect("Should succeed even if minted=0");
    assert_eq!(msgs.len(), 1);
    assert_eq!(minted, 0);
}

#[test]
fn test_deposit_fsm_in_flushing_but_not_stale() {
    let (cfg, st) = setup_contract();
    let st = MinterState {
        fsm: ContractState::Flushing,
        cached_er: Some(CachedER {
            er: Decimal::one(),
            aum: Some(CachedAUM { oracle_aum: 100_000_000, deposit_buffer: 50_000_000 }),
            timeout: 9_999_999_999,
        }),
        ..st
    };
    let (minted, st2, msgs) = deposit(&st, &cfg, &queried(0, 0), vec![Coin::new(1_000_000, "wBTC".to_string())], "recipient_addr")
        .expect("Should succeed, not stale => no error.");
    assert_eq!(msgs.len(), 1);
    assert_eq!(minted, 990_000);
    assert!(
        st2.fsm == ContractState::Idle || st2.fsm == ContractState::Flushing,
        "We either remain in Flushing or transition to Idle, but must not error."
    );
}

#[test]
fn test_redemption_coin_names_its_batch() {
    let coin = |d: &str, a: u128| Coin::new(a, d.to_string());
    let me = "minter".to_string();
    assert_eq!(get_batch_id_from_redemption_coin(&me, &coin("factory/minter/redemption/batch/17", 5)), Ok(17));
    assert_eq!(
        get_batch_id_from_redemption_coin(&me, &coin("factory/other/redemption/batch/17", 5)),
        Err(ContractError::WrongRedemptionTokenOrNoFunds)
    );
    assert_eq!(
        get_batch_id_from_redemption_coin(&me, &coin("factory/minter/redemption/batch/17", 0)),
        Err(ContractError::WrongRedemptionTokenOrNoFunds)
    );
    assert_eq!(
        get_batch_id_from_redemption_coin(&me, &coin("factory/minter/redemption/batch/x1", 5)),
        Err(ContractError::WrongRedemptionTokenOrNoFunds)
    );
    assert_eq!(
        get_batch_id_from_redemption_coin(&me, &coin("factory/minter/redemption/batch/1/2", 5)),
        Err(ContractError::WrongRedemptionTokenOrNoFunds)
    );
}

#[test]
fn test_withdraw_process_and_claim_cycle() {
    let (cfg, st) = setup_contract();
    let me = "minter".to_string();
    let user = "user".to_string();

    // The user burns maxBTC into batch 1 and receives as many redemption tokens.
    let w = execute_withdraw(&st, &cfg, NOW, &queried(0, 0), &me, &user, &vec![Coin::new(1_000_000, "factory/minter/maxbtc".to_string())])
        .unwrap();
    assert_eq!(w.amount, 1_000_000);
    assert_eq!(
        w.msgs,
        vec![
            MinterMsg::TokenBurn { amount: Coin::new(1_000_000, "factory/minter/maxbtc".to_string()), burn_from_address: user.clone() },
            MinterMsg::TokenMint { amount: Coin::new(1_000_000, "redemption/batch/1".to_string()), mint_to_address: user.clone() },
        ]
    );
    assert_eq!(w.state.active_batch.unwrap().maxbtc_burned, 1_000_000);

    // Too early to move the batch on.
    let q = Queried { collector_balance: 500, ..queried(2_000_000, 2_000_000) };
    assert_eq!(
        execute_process_active_batch(&w.state, &cfg, NOW + 10, &q, 1_000_000).err(),
        Some(ContractError::CannotProcessActiveBatchYet)
    );

    // Once the period is over, batch 1 withdraws at an exchange rate of one.
    let later = NOW + 86_400;
    let p = execute_process_active_batch(&w.state, &cfg, later, &q, 1_000_000).unwrap();
    assert_eq!(p.status, ProcessBatchStatus::Withdrawing);
    assert!(p.msgs.is_empty());
    assert_eq!(p.state.fsm, ContractState::Withdrawing);
    assert_eq!(p.state.batch_id_counter, 2);
    let wb = p.state.withdrawing_batch.unwrap();
    assert_eq!(wb.batch_id, 1);
    assert_eq!(wb.btc_requested, 1_000_000);
    assert_eq!(wb.collector_historical_balance, 500);
    assert_eq!(p.state.active_batch.unwrap().batch_id, 2);
    assert_eq!(p.state.active_batch.unwrap().maxbtc_burned, 0);
    assert_eq!(p.state.cached_er, Some(CachedER { er: Decimal::one(), timeout: later + 100, aum: None }));

    // The collector received a little more than requested: the batch is
    // finalized, the surplus goes to the treasury, and 40% of the
    // redemption tokens take 40% of what was collected.
    let q2 = Queried { collector_balance: 500 + 1_000_000 + 1_000, ..q };
    let c = execute_claim(
        &p.state,
        &cfg,
        later + 10,
        &q2,
        &me,
        &vec![Coin::new(400_000, "factory/minter/redemption/batch/1".to_string())],
        &"recipient".to_string(),
        None,
        1_000_000,
    )
    .unwrap();
    let payout: u128 = 400_400;
    assert_eq!(c.amount, payout);
    assert_eq!(c.state.fsm, ContractState::Idle);
    assert_eq!(c.state.cached_er, None);
    assert_eq!(c.state.withdrawing_batch, None);
    let finalized = Batch { collected_amount: 1_000_000 + 1_000, ..wb };
    assert_eq!(c.finalized, Some(finalized));
    assert_eq!(c.claimed, Batch { paid_amount: payout, ..finalized });
    assert_eq!(
        c.msgs,
        vec![
            MinterMsg::BankSend { to_address: "treasury_addr".to_string(), amount: Coin::new(1_000, "wBTC".to_string()) },
            MinterMsg::BankSend { to_address: "recipient".to_string(), amount: Coin::new(payout, "wBTC".to_string()) },
            MinterMsg::TokenBurn {
                amount: Coin::new(400_000, "factory/minter/redemption/batch/1".to_string()),
                burn_from_address: me.clone(),
            },
        ]
    );

    // A batch that is not finalized cannot be claimed.
    assert_eq!(
        execute_claim(
            &c.state,
            &cfg,
            later + 20,
            &q2,
            &me,
            &vec![Coin::new(1, "factory/minter/redemption/batch/2".to_string())],
            &"recipient".to_string(),
            None,
            1,
        )
        .err(),
        Some(ContractError::BatchNotFinalized)
    );
}

#[test]
fn test_flush_claws_back_and_sends_only_held_deposits() {
    let (cfg, st) = setup_contract();
    let required: u128 = 10_000_000;
    let liq = required + 500;
    let q = Queried {
        oracle_aum: 100_000_000,
        deposit_buffer: 1_000,
        liquidation_btc_balance: 0,
        liquidation_maxbtc_balance: liq,
        maxbtc_supply: 2 * liq + 100_000_000,
        collector_balance: 0,
    };
    let now = NOW + 3600;
    let r = execute_flush_deposits(&st, &cfg, now, &q).unwrap();
    assert_eq!(r.status, FlushStatus::Flushed);
    assert_eq!(r.amounts, FlushAmounts { required_buffer: required, to_liquidation: 0, clawback: 500, to_pump: 1_000 });
    assert_eq!(
        r.msgs,
        vec![
            MinterMsg::ClawBack { contract_addr: "liq_buffer_addr".to_string(), amount: Coin::new(500, "wBTC".to_string()) },
            MinterMsg::BankSend { to_address: "pump_addr".to_string(), amount: Coin::new(1_000, "wBTC".to_string()) },
        ]
    );
    assert_eq!(r.state.fsm, ContractState::Flushing);
    assert_eq!(r.state.last_deposit_flush_time, now);
    assert_eq!(
        r.state.cached_er,
        Some(CachedER {
            er: Decimal::raw(1_000_010_000_000_000_000),
            timeout: now + 100,
            aum: Some(CachedAUM { oracle_aum: 100_000_000, deposit_buffer: 1_000 }),
        })
    );
}

#[test]
fn test_withdrawing_batch_finalized_within_tolerance() {
    let msg = InstantiateMsg { deposit_decimals: 18, ..default_instantiate_msg() };
    let res = instantiate(&msg, NOW).unwrap();
    let (cfg, st) = (res.config, res.state);
    let wb = Batch {
        batch_id: 1,
        btc_requested: 1_000_000,
        maxbtc_burned: 1_000_000,
        collected_amount: 0,
        paid_amount: 0,
        collector_historical_balance: 0,
    };
    let st = MinterState {
        fsm: ContractState::Withdrawing,
        withdrawing_batch: Some(wb),
        cached_er: Some(CachedER { er: Decimal::one(), timeout: NOW + 1_000, aum: None }),
        ..st
    };
    // 40_000 short of the request, within the 5% tolerance: finalized.
    let q = Queried { collector_balance: 960_000, ..queried(0, 0) };
    let r = execute_flush_deposits(&st, &cfg, NOW, &q).unwrap();
    assert_eq!(r.status, FlushStatus::NotEnoughTimeElapsed);
    assert_eq!(r.finalized, Some(Batch { collected_amount: 960_000, ..wb }));
    assert_eq!(r.state.fsm, ContractState::Idle);
    assert_eq!(r.state.withdrawing_batch, None);
    assert_eq!(r.state.cached_er, None);
    assert!(r.msgs.is_empty());
    // 100_000 short, beyond the tolerance: the batch keeps waiting.
    let q = Queried { collector_balance: 900_000, ..queried(0, 0) };
    let r = execute_flush_deposits(&st, &cfg, NOW, &q).unwrap();
    assert_eq!(r.finalized, None);
    assert_eq!(r.state, st);
}
