use maxbtc::address::{AddressInput, OwnershipError, assert_owner};
use maxbtc::coin::{Coin, PaymentError};
use maxbtc::coinfactory_wrapper::{self as wrapper, WrapperMsg};
use maxbtc::decimal::Decimal;
use maxbtc::exchange_rate_provider::{self as erp, GetTwaerResponse};
use maxbtc::factory::{self, CodeChecksums, CodeIds, ChildInstantiateMsg, FeeMinterParams, get_maxbtc_denom};
use maxbtc::kyc_checker::{self as kyc, ConfigOptional, ZkmeVerifyQueryMsg};
use maxbtc::pump::{self, EurekaFee, IbcTransferAction};
use maxbtc::versioning::{MigrateError, migrate_version};

fn valid(a: &str) -> AddressInput {
    AddressInput { address: a.to_string(), valid: true }
}

#[test]
fn test_update_exchange_rate() {
    let owner = Some("cosmwasm1jy7lsk5pk38zjfnn6nt6qlaphy9uejn496zwvh".to_string());
    let rate = erp::execute_update_exchange_rate(&owner, &"cosmwasm1jy7lsk5pk38zjfnn6nt6qlaphy9uejn496zwvh".to_string(), Decimal::percent(99))
        .unwrap();
    assert_eq!(rate, Decimal::percent(99));
    let answer = erp::get_twaer(rate, 1_571_797_419_879_305_533);
    assert_eq!(answer, GetTwaerResponse { twaer: Decimal::raw(990_000_000_000_000_000), published_at: 1_571_797_419 });
    assert_eq!(
        erp::execute_update_exchange_rate(&owner, &"other".to_string(), Decimal::one()).unwrap_err(),
        erp::ContractError::Ownership(OwnershipError::NotOwner)
    );
    assert_eq!(erp::instantiate(true).unwrap(), Decimal::one());
}

#[test]
fn test_query_has_approved() {
    let cfg = kyc::instantiate(kyc::InstantiateMsg {
        owner: valid("owner"),
        zkme_verify_upgradeable_contract: valid("zkme_verify_upgradeable_contract"),
        cooperator_address: "cooperator".to_string(),
    })
    .unwrap();
    let (contract, query) = kyc::query_has_approved(&cfg, "user".to_string());
    assert_eq!(contract, "zkme_verify_upgradeable_contract");
    assert_eq!(query, ZkmeVerifyQueryMsg::HasApproved { cooperator: "cooperator".to_string(), user: "user".to_string() });
}

#[test]
fn test_query_not_approved() {
    // The checker answers what the zkMe contract answers for the configured
    // cooperator and the user; here the query it sends for a user zkMe has
    // not approved.
    let cfg = kyc::instantiate(kyc::InstantiateMsg {
        owner: valid("owner"),
        zkme_verify_upgradeable_contract: valid("zkme_verify_upgradeable_contract"),
        cooperator_address: "cooperator".to_string(),
    })
    .unwrap();
    let (contract, query) = kyc::query_has_approved(&cfg, "user".to_string());
    assert_eq!(contract, "zkme_verify_upgradeable_contract");
    assert_ne!(query, ZkmeVerifyQueryMsg::HasApproved { cooperator: "cooperator".to_string(), user: "other".to_string() });
    assert_eq!(query, ZkmeVerifyQueryMsg::HasApproved { cooperator: "cooperator".to_string(), user: "user".to_string() });
}

#[test]
fn test_kyc_update_config() {
    let cfg = kyc::Config { zkme_verify_upgradeable_contract: "z".to_string(), cooperator_address: "c".to_string() };
    let owner = Some("owner".to_string());
    let upd = ConfigOptional { zkme_verify_upgradeable_contract: Some("z2".to_string()), cooperator_address: None };
    let c = kyc::execute_update_config(&cfg, &owner, &"owner".to_string(), &upd, true).unwrap();
    assert_eq!(c, kyc::Config { zkme_verify_upgradeable_contract: "z2".to_string(), cooperator_address: "c".to_string() });
    assert_eq!(kyc::execute_update_config(&cfg, &owner, &"owner".to_string(), &upd, false).unwrap_err(), kyc::ContractError::InvalidAddress);
    assert_eq!(
        kyc::execute_update_config(&cfg, &owner, &"x".to_string(), &upd, true).unwrap_err(),
        kyc::ContractError::Ownership(OwnershipError::NotOwner)
    );
}

#[test]
fn test_assert_owner() {
    assert_eq!(assert_owner(&None, &"a".to_string()), Err(OwnershipError::NoOwner));
    assert_eq!(assert_owner(&Some("a".to_string()), &"b".to_string()), Err(OwnershipError::NotOwner));
    assert_eq!(assert_owner(&Some("a".to_string()), &"a".to_string()), Ok(()));
}

#[test]
fn test_coinfactory_wrap_unwrap() {
    let (cfg, msg) = wrapper::instantiate(&valid("owner"), &"contract".to_string(), &"ibc/BTC".to_string(), &"wbtc".to_string()).unwrap();
    assert_eq!(cfg.out_denom, "factory/contract/wbtc");
    assert_eq!(msg, WrapperMsg::CreateDenom { subdenom: "wbtc".to_string() });
    let m = wrapper::execute_wrap(&cfg, &"user".to_string(), &vec![Coin::new(10, "ibc/BTC".to_string())]).unwrap();
    assert_eq!(m, WrapperMsg::Mint { amount: Coin::new(10, "factory/contract/wbtc".to_string()), to: "user".to_string() });
    let ms = wrapper::execute_unwrap(&cfg, &"user".to_string(), &vec![Coin::new(4, "factory/contract/wbtc".to_string())]).unwrap();
    assert_eq!(
        ms,
        vec![
            WrapperMsg::Burn { amount: Coin::new(4, "factory/contract/wbtc".to_string()) },
            WrapperMsg::Send { amount: Coin::new(4, "ibc/BTC".to_string()), to: "user".to_string() },
        ]
    );
    assert_eq!(
        wrapper::execute_wrap(&cfg, &"user".to_string(), &vec![Coin::new(4, "other".to_string())]).unwrap_err(),
        wrapper::ContractError::Payment(PaymentError::MissingDenom("ibc/BTC".to_string()))
    );
}

#[test]
fn test_migrate_version() {
    let n = "name".to_string();
    assert_eq!(migrate_version(&n, &"0.1.0".to_string(), &n, &"0.2.0".to_string()), Ok(true));
    assert_eq!(migrate_version(&n, &"0.2.0".to_string(), &n, &"0.2.0".to_string()), Ok(false));
    assert_eq!(migrate_version(&n, &"0.10.0".to_string(), &n, &"0.9.0".to_string()), Ok(false));
    assert_eq!(migrate_version(&n, &"x".to_string(), &n, &"0.9.0".to_string()), Err(MigrateError::SemVer));
    assert_eq!(
        migrate_version(&"other".to_string(), &"0.1.0".to_string(), &n, &"0.2.0".to_string()),
        Err(MigrateError::MigrationError { storage_contract_name: "other".to_string(), contract_name: n.clone() })
    );
}

fn pump_config() -> pump::Config {
    pump::instantiate(&pump::InstantiateMsg {
        owner: valid("owner"),
        executor: valid("executor"),
        transfer_denom: "wbtc".to_string(),
        receiver: "eth_receiver".to_string(),
        recover_address: "cosmos_recover".to_string(),
        source_port: "transfer".to_string(),
        eureka_source_channel: "08-wasm-1369".to_string(),
        neutron_source_channel: "channel-1".to_string(),
        to_chain_entry_contract_address: "entry".to_string(),
        to_chain_callback_contract_address: "callback".to_string(),
        max_fee: Coin::new(100, "uatom".to_string()),
        oracle_address: valid("oracle"),
        exact_out: false,
        relay_fee: Coin::new(0, "untrn".to_string()),
    })
    .unwrap()
}

#[test]
fn test_pump_push() {
    let cfg = pump_config();
    let fee = EurekaFee { coin: Coin::new(50, "uatom".to_string()), receiver: "fee_receiver".to_string(), timeout_timestamp: 0 };
    assert_eq!(
        pump::execute_transfer(
            &cfg,
            &"owner".to_string(),
            &Coin::new(1_000, "wbtc".to_string()),
            &fee,
            &"entry".to_string(),
            &"callback".to_string(),
            &"08-wasm-1369".to_string(),
            0,
            0,
        )
        .unwrap_err(),
        pump::ContractError::Unauthorized
    );
    let t = pump::execute_transfer(
        &cfg,
        &"executor".to_string(),
        &Coin::new(1_000, "wbtc".to_string()),
        &fee,
        &"entry".to_string(),
        &"callback".to_string(),
        &"08-wasm-1369".to_string(),
        1_750_089_037_000_000_000,
        1_750_089_037_500_000_000,
    )
    .unwrap();
    assert_eq!(t.receiver, "entry");
    assert_eq!(t.source_channel, "channel-1");
    assert_eq!(t.token, Coin::new(1_000, "wbtc".to_string()));
    assert_eq!(t.timeout_timestamp, 1_750_089_037_000_000_000);
    assert_eq!(t.memo.wasm.msg.timeout_timestamp, 1_750_089_037);
    assert!(t.recv_fee.is_empty());
    let IbcTransferAction::IbcTransfer(x) = &t.memo.wasm.msg.action.action;
    assert_eq!(x.ibc_info.encoding, "application/x-solidity-abi");
    assert_eq!(x.ibc_info.receiver, "eth_receiver");
    assert_eq!(pump::get_fee_item(&"untrn".to_string(), 5), vec![Coin::new(5, "untrn".to_string())]);
    let err = pump::execute_transfer(
        &cfg,
        &"executor".to_string(),
        &Coin::new(1_000, "wbtc".to_string()),
        &fee,
        &"other_entry".to_string(),
        &"callback".to_string(),
        &"08-wasm-1369".to_string(),
        0,
        0,
    )
    .unwrap_err();
    assert_eq!(err, pump::ContractError::OracleMismatch { value: "other_entry".to_string() });
    let big_fee = EurekaFee { coin: Coin::new(500, "uatom".to_string()), ..fee.clone() };
    let err = pump::execute_transfer(
        &cfg,
        &"executor".to_string(),
        &Coin::new(1_000, "wbtc".to_string()),
        &big_fee,
        &"entry".to_string(),
        &"callback".to_string(),
        &"08-wasm-1369".to_string(),
        0,
        0,
    )
    .unwrap_err();
    assert_eq!(err, pump::ContractError::InvalidFee);
}

fn code_ids() -> CodeIds {
    CodeIds {
        token_code_id: 1,
        core_code_id: 2,
        exchange_rate_provider_contract_code_id: 3,
        allowlist_contract_code_id: 4,
        fee_collector_contract_code_id: 5,
        waitosaur_observer_contract_code_id: 6,
        waitosaur_holder_contract_code_id: 7,
        withdrawal_manager_contract_code_id: 8,
    }
}

fn factory_msg() -> factory::InstantiateMsg {
    factory::InstantiateMsg {
        code_ids: code_ids(),
        salt: b"salt".to_vec(),
        owner: valid("owner"),
        operator: "operator".to_string(),
        ceffu_backend: valid("ceffu"),
        deposit_denom: "wBTC".to_string(),
        deposit_decimals: 8,
        deposit_cost: Decimal::zero(),
        withdrawal_cost: Decimal::zero(),
        deposits_cap: None,
        maxbtc_denom: "maxbtc".to_string(),
        fee_collector_params: FeeMinterParams {
            fee_apy_reduction_percentage: Decimal::percent(10),
            collection_period_seconds: 3600,
        },
        binance_aum_contract: valid("binance"),
        waitosaur_observer_unlocker: valid("unlocker"),
        deposit_forwarder_contract: "forwarder".to_string(),
        exchange_rate_stale_period: 60,
    }
}

#[test]
fn test_factory_predicts_addresses_as_cosmwasm_does() {
    let creator = vec![7u8; 32];
    let checksums = CodeChecksums {
        fee_collector: vec![1u8; 32],
        token: vec![2u8; 32],
        exchange_rate_provider: vec![3u8; 32],
        allowlist: vec![4u8; 32],
        core: vec![5u8; 32],
        waitosaur_observer: vec![6u8; 32],
        waitosaur_holder: vec![7u8; 32],
        withdrawal_manager: vec![8u8; 32],
    };
    let p = factory::predict_addresses(&factory_msg(), &creator, &checksums).unwrap();
    let expected = cosmwasm_std::instantiate2_address(&[5u8; 32], &cosmwasm_std::CanonicalAddr::from(creator.as_slice()), b"salt").unwrap();
    assert_eq!(p.core, expected.as_slice().to_vec());
    assert_ne!(p.core, p.token);
    let bad = CodeChecksums { token: vec![1u8; 31], ..checksums };
    assert_eq!(factory::predict_addresses(&factory_msg(), &creator, &bad).err(), Some(factory::ContractError::InvalidChecksumLength));
    let mut no_salt = factory_msg();
    no_salt.salt = vec![];
    let checksums = CodeChecksums { token: vec![2u8; 32], ..bad };
    assert_eq!(factory::predict_addresses(&no_salt, &creator, &checksums).err(), Some(factory::ContractError::InvalidSaltLength));
}

#[test]
fn test_factory_instantiate_messages() {
    let st = factory::State {
        allowlist_contract: "allowlist".to_string(),
        exchange_rate_provider_contract: "erp".to_string(),
        fee_collector_contract: "fee".to_string(),
        token_contract: "token".to_string(),
        core_contract: "core".to_string(),
        waitosaur_observer_contract: "observer".to_string(),
        waitosaur_holder_contract: "holder".to_string(),
        withdrawal_manager_contract: "wm".to_string(),
    };
    let msgs = factory::instantiate_messages(&factory_msg(), &"factory".to_string(), &st).unwrap();
    assert_eq!(msgs.len(), 8);
    assert_eq!(msgs[0].code_id, 6);
    assert_eq!(msgs[0].label, "maxBTC Waitosaur Contract");
    assert_eq!(msgs[6].label, "maxBTC Core Contract");
    match &msgs[7].msg {
        ChildInstantiateMsg::FeeCollector { fee_denom, core_contract, .. } => {
            assert_eq!(fee_denom, "factory/token/maxbtc");
            assert_eq!(core_contract, "core");
        },
        _ => panic!("fee collector expected last"),
    }
    assert!(msgs.iter().all(|m| m.admin == "factory" && m.salt == b"salt".to_vec()));
    let mut bad = factory_msg();
    bad.ceffu_backend.valid = false;
    assert_eq!(factory::instantiate_messages(&bad, &"factory".to_string(), &st).err(), Some(factory::ContractError::InvalidAddress));
}

#[test]
fn test_get_maxbtc_denom() {
    assert_eq!(get_maxbtc_denom("contract".to_string(), "maxbtc".to_string()), "factory/contract/maxbtc");
}
