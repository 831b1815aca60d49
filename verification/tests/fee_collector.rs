use std::str::FromStr;

use maxbtc::address::{AddressInput, OwnershipError};
use maxbtc::coin::Coin;
use maxbtc::decimal::Decimal;
use maxbtc::fee_collector::{
    Config, ContractError, CoreContractUpdate, InstantiateMsg, State, calculate_fee_to_mint, dec_to_amount,
    COLLECT_FEE_REPLY_ID, execute_claim, execute_collect_fee, execute_update_config, instantiate, reply_collect_fee,
};

const T0: u64 = 1_571_797_419_879_305_533;

fn dec(s: &str) -> Decimal {
    Decimal::raw(cosmwasm_std::Decimal::from_str(s).unwrap().atomics().u128())
}

fn valid(a: &str) -> AddressInput {
    AddressInput { address: a.to_string(), valid: true }
}

fn default_instantiate_msg() -> InstantiateMsg {
    InstantiateMsg {
        owner: valid("owner_addr"),
        core_contract: valid("core_contract_addr"),
        fee_apy_reduction_percentage: Decimal::percent(1),
        collection_period_seconds: 10,
        fee_denom: "maxBTC".to_string(),
        maxbtc_decimals: 6,
    }
}

fn setup_contract() -> (Config, State) {
    instantiate(&default_instantiate_msg(), T0, Decimal::one()).unwrap()
}

#[test]
fn test_calculate_fee_to_mint() {
    let total_supply = 1_000_000u128;
    let decimals = 6;
    let fee = calculate_fee_to_mint(dec("1.0"), dec("1.1"), total_supply, dec("0.1"), decimals).unwrap();
    assert_eq!(fee, 9174);
    let fee_2 = calculate_fee_to_mint(dec("1.1"), dec("1.1"), total_supply, dec("0.1"), decimals).unwrap();
    assert_eq!(fee_2, 0);
    let fee_3 = calculate_fee_to_mint(dec("1.1"), dec("1.0"), total_supply, dec("0.1"), decimals).unwrap();
    assert_eq!(fee_3, 0);
    let fee_4 = calculate_fee_to_mint(dec("1.0"), dec("1.1"), total_supply, dec("0.5"), decimals).unwrap();
    assert_eq!(fee_4, 47619);
}

#[test]
fn tests_test_instantiate_success() {
    let (cfg, st) = setup_contract();
    assert_eq!(cfg.core_contract, "core_contract_addr");
    assert_eq!(cfg.collection_period_seconds, 10);
    assert_eq!(st, State { last_collection_timestamp: T0, last_exchange_rate: Decimal::one() });
}

#[test]
fn test_instantiate_refuses_share_out_of_range() {
    let mut msg = default_instantiate_msg();
    msg.fee_apy_reduction_percentage = Decimal::one();
    assert_eq!(instantiate(&msg, T0, Decimal::one()).unwrap_err(), ContractError::InvalidFeeReductionPercentage);
    msg.fee_apy_reduction_percentage = Decimal::zero();
    assert_eq!(instantiate(&msg, T0, Decimal::one()).unwrap_err(), ContractError::InvalidFeeReductionPercentage);
    let mut msg = default_instantiate_msg();
    msg.core_contract.valid = false;
    assert_eq!(instantiate(&msg, T0, Decimal::one()).unwrap_err(), ContractError::InvalidAddress);
}

#[test]
fn test_collect_fee_success() {
    let (cfg, st) = setup_contract();
    let now = T0 + 100 * 1_000_000_000;
    let res = match execute_collect_fee(&cfg, &st, now, dec("1.05"), 100_000_000) {
        Ok(r) => r,
        Err(e) => panic!("Unexpected error: {e:?}"),
    };
    assert_eq!(res.mint, Some(Coin::new(47_641, "maxBTC".to_string())));
    assert_eq!(res.state, State { last_collection_timestamp: 1_571_797_519_879_305_533, last_exchange_rate: dec("1.05") });
}

#[test]
fn test_collect_fee_collection_period_not_elapsed() {
    let (cfg, st) = setup_contract();
    match execute_collect_fee(&cfg, &st, T0, dec("1.05"), 100_000_000) {
        Err(ContractError::CollectionPeriodNotElapsed) => (),
        Err(e) => panic!("Unexpected error: {e:?}"),
        Ok(_) => panic!("Should refuse"),
    }
}

#[test]
fn test_collect_fee_negative_or_zero_apy() {
    let (cfg, st) = setup_contract();
    let now = T0 + 100 * 1_000_000_000;
    match execute_collect_fee(&cfg, &st, now, Decimal::one(), 100_000_000) {
        Err(ContractError::NegativeOrZeroApy { current_rate, last_rate }) => {
            assert_eq!(current_rate, Decimal::one());
            assert_eq!(last_rate, Decimal::one());
        },
        Err(e) => panic!("Unexpected error: {e:?}"),
        Ok(_) => panic!("Should refuse"),
    }
}

#[test]
fn test_collect_fee_rounding_to_zero_mints_nothing() {
    let (cfg, st) = setup_contract();
    let now = T0 + 100 * 1_000_000_000;
    let res = match execute_collect_fee(&cfg, &st, now, dec("1.000000001"), 10) {
        Ok(r) => r,
        Err(e) => panic!("Unexpected error: {e:?}"),
    };
    assert_eq!(res.mint, None);
    assert_eq!(res.state, st);
}

#[test]
fn test_claim() {
    let owner = Some("owner_addr".to_string());
    let coin = Coin::new(5, "maxBTC".to_string());
    assert_eq!(
        execute_claim(&owner, &"x".to_string(), &coin, &valid("r")).unwrap_err(),
        ContractError::Ownership(OwnershipError::NotOwner)
    );
    assert_eq!(
        execute_claim(&None, &"x".to_string(), &coin, &valid("r")).unwrap_err(),
        ContractError::Ownership(OwnershipError::NoOwner)
    );
    assert_eq!(
        execute_claim(&owner, &"owner_addr".to_string(), &Coin::new(0, "maxBTC".to_string()), &valid("r")).unwrap_err(),
        ContractError::InvalidZeroAmount
    );
    assert_eq!(
        execute_claim(&owner, &"owner_addr".to_string(), &coin, &AddressInput { address: "r".to_string(), valid: false }).unwrap_err(),
        ContractError::InvalidAddress
    );
    assert_eq!(execute_claim(&owner, &"owner_addr".to_string(), &coin, &valid("r")).unwrap(), ("r".to_string(), coin));
}

#[test]
fn test_update_config() {
    let (cfg, st) = setup_contract();
    let owner = Some("owner_addr".to_string());
    let sender = "owner_addr".to_string();
    let (c, s) = execute_update_config(&cfg, &st, &owner, &sender, T0 + 5, &None, Some(dec("0.2")), Some(7200)).unwrap();
    assert_eq!(c.fee_apy_reduction_percentage, dec("0.2"));
    assert_eq!(c.collection_period_seconds, 7200);
    assert_eq!(s, st);
    let new_core = CoreContractUpdate { address: valid("core2"), exchange_rate: dec("1.2") };
    let (c, s) = execute_update_config(&cfg, &st, &owner, &sender, T0 + 5, &Some(new_core), None, None).unwrap();
    assert_eq!(c.core_contract, "core2");
    assert_eq!(s, State { last_collection_timestamp: T0 + 5, last_exchange_rate: dec("1.2") });
    assert_eq!(
        execute_update_config(&cfg, &st, &owner, &sender, T0, &None, Some(Decimal::one()), None).unwrap_err(),
        ContractError::InvalidFeeReductionPercentage
    );
}

#[test]
fn test_dec_to_amount() {
    assert_eq!(dec_to_amount(dec("1.5"), 6).unwrap(), 1_500_000);
    assert_eq!(dec_to_amount(dec("1.5"), 19).unwrap_err(), ContractError::InvalidDecimalConversion);
}

#[test]
fn test_collected_state_recorded_only_after_mint() {
    let (cfg, st) = setup_contract();
    let now = T0 + 100 * 1_000_000_000;
    let res = match execute_collect_fee(&cfg, &st, now, dec("1.05"), 100_000_000) {
        Ok(r) => r,
        Err(e) => panic!("Unexpected error: {e:?}"),
    };
    let pending = Some(res.state);
    assert_eq!(reply_collect_fee(COLLECT_FEE_REPLY_ID, &st, &pending, false), Ok(st));
    assert_eq!(reply_collect_fee(COLLECT_FEE_REPLY_ID, &st, &pending, true), Ok(res.state));
    assert_eq!(reply_collect_fee(COLLECT_FEE_REPLY_ID, &st, &None, true), Ok(st));
    assert_eq!(reply_collect_fee(COLLECT_FEE_REPLY_ID + 1, &st, &pending, true), Err(ContractError::InvalidReplyId));
}
