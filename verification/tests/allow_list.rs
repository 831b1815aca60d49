use maxbtc::address::{AddressInput, OwnershipError};
use maxbtc::allow_list::{
    AllowList, ContractError, ZkMeSettings, address_lt, execute_allow, execute_deny, execute_update_allow_list,
    execute_update_zk_me_settings, is_address_allowed, migrate, query_allow_list,
};

const OWNER: &str = "cosmwasm1jy7lsk5pk38zjfnn6nt6qlaphy9uejn496zwvh";
const OTHER: &str = "cosmwasm1ygejj7rnheqlvvmcnmggllcd9y226ql5n7sw55";

fn valid(a: &str) -> AddressInput {
    AddressInput { address: a.to_string(), valid: true }
}

fn allowed(list: &AllowList, a: &str) -> bool {
    is_address_allowed(list, &valid(a)).unwrap()
}

#[test]
fn test_allow_addresses() {
    let mut list = AllowList::new();
    let owner = Some(OWNER.to_string());
    let res = execute_allow(&mut list, &owner, &OWNER.to_string(), &vec![valid(OTHER), valid(OWNER)]).unwrap();
    assert_eq!(res, vec![OTHER.to_string(), OWNER.to_string()]);
    let page = query_allow_list(&list, Some(10), &None).unwrap();
    assert_eq!(page.len(), 2);
    assert!(page.contains(&OTHER.to_string()));
    assert!(page.contains(&OWNER.to_string()));
}

#[test]
fn test_allow_list_no_admin() {
    let mut list = AllowList::new();
    let owner = Some(OWNER.to_string());
    let err = execute_allow(&mut list, &owner, &OTHER.to_string(), &vec![valid(OTHER), valid(OWNER)]).unwrap_err();
    assert_eq!(err, ContractError::Ownership(OwnershipError::NotOwner));
    assert_eq!(list.len(), 0);
}

#[test]
fn test_deny_addresses() {
    let mut list = AllowList::new();
    let owner = Some(OWNER.to_string());
    execute_allow(&mut list, &owner, &OWNER.to_string(), &vec![valid(OTHER), valid(OWNER)]).unwrap();
    let res = execute_deny(&mut list, &owner, &OWNER.to_string(), &vec![valid(OTHER)]).unwrap();
    assert_eq!(res, vec![OTHER.to_string()]);
    let page = query_allow_list(&list, Some(10), &None).unwrap();
    assert_eq!(page.len(), 1);
    assert!(page.contains(&OWNER.to_string()));
}

#[test]
fn test_deny_list_no_admin() {
    let mut list = AllowList::new();
    let owner = Some(OWNER.to_string());
    let err = execute_deny(&mut list, &owner, &OTHER.to_string(), &vec![valid(OTHER), valid(OWNER)]).unwrap_err();
    assert_eq!(err, ContractError::Ownership(OwnershipError::NotOwner));
}

#[test]
fn test_is_address_allowed_by_allow_list() {
    let mut list = AllowList::new();
    let owner = Some(OWNER.to_string());
    execute_allow(&mut list, &owner, &OWNER.to_string(), &vec![valid(OTHER), valid(OWNER)]).unwrap();
    assert!(allowed(&list, OTHER));
    assert!(!allowed(&list, "cosmwasm1ygejj7rnheqlvvmcnmggllcd9y226ql3pzxaxu"));
}

#[test]
fn test_migrate_from_v1_to_v2() {
    let mut list = AllowList::new();
    let name = "crates.io:maxbtc-neutron-allow-list".to_string();
    let old = Some(vec!["cosmwasm1a".to_string(), "cosmwasm1b".to_string()]);
    let record = migrate(&mut list, &name, &"0.2.0".to_string(), &name, &"0.3.1".to_string(), &old).unwrap();
    assert!(record);
    assert!(allowed(&list, "cosmwasm1a"));
    assert!(allowed(&list, "cosmwasm1b"));
}

#[test]
fn test_migrate_refuses_other_contract() {
    let mut list = AllowList::new();
    let err = migrate(&mut list, &"other".to_string(), &"0.2.0".to_string(), &"mine".to_string(), &"0.3.1".to_string(), &None).unwrap_err();
    assert!(matches!(err, ContractError::Migrate(_)));
}

#[test]
fn test_allow_then_deny_laws() {
    let mut list = AllowList::new();
    let owner = Some(OWNER.to_string());
    execute_allow(&mut list, &owner, &OWNER.to_string(), &vec![valid("b"), valid("a"), valid("c"), valid("a")]).unwrap();
    assert_eq!(list.len(), 3);
    assert_eq!(query_allow_list(&list, None, &None).unwrap(), vec!["a".to_string(), "b".to_string(), "c".to_string()]);
    assert_eq!(query_allow_list(&list, Some(1), &Some(valid("a"))).unwrap(), vec!["b".to_string()]);
    execute_deny(&mut list, &owner, &OWNER.to_string(), &vec![valid("b"), valid("zzz")]).unwrap();
    assert!(!allowed(&list, "b"));
    assert!(allowed(&list, "a"));
    let bad = vec![valid("d"), AddressInput { address: "bad".to_string(), valid: false }];
    assert_eq!(execute_allow(&mut list, &owner, &OWNER.to_string(), &bad).unwrap_err(), ContractError::InvalidAddress);
    assert!(!allowed(&list, "d"));
}

#[test]
fn test_zk_me_settings_and_unlisted_address() {
    let mut list = AllowList::new();
    let owner = Some(OWNER.to_string());
    let settings = Some(ZkMeSettings { contract: "zkme".to_string(), cooperator: "coop".to_string() });
    assert_eq!(
        execute_update_zk_me_settings(&owner, &OWNER.to_string(), &Some((valid("zkme"), valid("coop")))).unwrap(),
        settings
    );
    assert_eq!(execute_update_zk_me_settings(&owner, &OWNER.to_string(), &None).unwrap(), None);
    // An address that is not on the list is not allowed.
    assert!(!allowed(&list, "user"));
    execute_allow(&mut list, &owner, &OWNER.to_string(), &vec![valid("user")]).unwrap();
    assert!(allowed(&list, "user"));
    assert_eq!(
        is_address_allowed(&list, &AddressInput { address: "bad".to_string(), valid: false }).unwrap_err(),
        ContractError::InvalidAddress
    );
}

#[test]
fn test_update_allow_list_replaces_the_list() {
    let mut list = AllowList::new();
    let owner = Some(OWNER.to_string());
    execute_allow(&mut list, &owner, &OWNER.to_string(), &vec![valid("a"), valid("b")]).unwrap();
    assert_eq!(
        execute_update_allow_list(&mut list, &owner, &"x".to_string(), &vec![valid("c")]).unwrap_err(),
        ContractError::Ownership(OwnershipError::NotOwner)
    );
    assert!(allowed(&list, "a"));
    execute_update_allow_list(&mut list, &owner, &OWNER.to_string(), &vec![valid("c"), valid("b"), valid("c")]).unwrap();
    assert!(!allowed(&list, "a"));
    assert!(allowed(&list, "b"));
    assert!(allowed(&list, "c"));
    assert_eq!(query_allow_list(&list, None, &None).unwrap(), vec!["b".to_string(), "c".to_string()]);
}

#[test]
fn test_address_order() {
    assert!(address_lt(&"a".to_string(), &"b".to_string()));
    assert!(address_lt(&"a".to_string(), &"ab".to_string()));
    assert!(!address_lt(&"b".to_string(), &"ab".to_string()));
    assert!(!address_lt(&"a".to_string(), &"a".to_string()));
}
