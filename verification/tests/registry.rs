//! The mint and license-purchase workflows, end to end.

use licium_cw721::contract::{
    Registry, execute_licensing, execute_mint, get_by_iscc_code, instantiate, query_license,
    query_num_tokens,
};
use licium_cw721::error::RegistryError;
use licium_cw721::msg::{InstantiateMsg, MintMsg};
use licium_cw721::types::{Attribute, Coin};

fn coin(denom: &str, amount: u128) -> Coin {
    Coin { denom: denom.to_string(), amount }
}

fn mint_msg(token_id: &str, iscc_code: &str) -> MintMsg {
    MintMsg {
        token_id: token_id.to_string(),
        iscc_code: iscc_code.to_string(),
        meta_id: format!("meta-{}", iscc_code),
        data_id: format!("data-{}", iscc_code),
        instance_id: format!("inst-{}", iscc_code),
        tophash: format!("hash-{}", iscc_code),
        owner: "alice".to_string(),
        name: format!("asset {}", token_id),
        description: "a media asset".to_string(),
        image: "ipfs://image".to_string(),
        license_url: "https://example.invalid/license".to_string(),
        license_price: coin("uatom", 1000),
    }
}

fn registry_with_t1() -> Registry {
    let mut reg = Registry::new();
    instantiate(
        &mut reg,
        InstantiateMsg { name: "Licium".to_string(), symbol: "LIC".to_string() },
    );
    execute_mint(&mut reg, "alice".to_string(), mint_msg("t1", "iscc1")).unwrap();
    reg
}

fn attr(key: &str, value: &str) -> Attribute {
    Attribute { key: key.to_string(), value: value.to_string() }
}

#[test]
fn mint_succeeds_and_counts() {
    let mut reg = Registry::new();
    assert_eq!(query_num_tokens(&reg).count, 0);
    let resp = execute_mint(&mut reg, "alice".to_string(), mint_msg("t1", "iscc1")).unwrap();
    assert!(resp.messages.is_empty());
    assert_eq!(query_num_tokens(&reg).count, 1);
    execute_mint(&mut reg, "bob".to_string(), mint_msg("t2", "iscc2")).unwrap();
    assert_eq!(query_num_tokens(&reg).count, 2);
}

#[test]
fn mint_emits_event() {
    let mut reg = Registry::new();
    let resp = execute_mint(&mut reg, "minter".to_string(), mint_msg("t1", "iscc1")).unwrap();
    assert_eq!(
        resp.attributes,
        vec![
            attr("action", "mint"),
            attr("token_id", "t1"),
            attr("name", "asset t1"),
            attr("iscc_code", "iscc1"),
            attr("owner", "alice"),
        ]
    );
}

#[test]
fn mint_same_fingerprint_twice_fails() {
    let mut reg = Registry::new();
    execute_mint(&mut reg, "alice".to_string(), mint_msg("t1", "iscc1")).unwrap();
    let err = execute_mint(&mut reg, "bob".to_string(), mint_msg("t2", "iscc1")).unwrap_err();
    assert_eq!(err, RegistryError::AlreadyExists { id: "iscc1".to_string() });
    // Exactly one content record remains, the first mint's.
    let rec = get_by_iscc_code(&reg, &"iscc1".to_string()).unwrap();
    assert_eq!(rec.token_id, "t1");
    assert_eq!(query_num_tokens(&reg).count, 1);
}

#[test]
fn mint_same_token_id_twice_fails() {
    let mut reg = Registry::new();
    execute_mint(&mut reg, "alice".to_string(), mint_msg("t1", "iscc1")).unwrap();
    let err = execute_mint(&mut reg, "bob".to_string(), mint_msg("t1", "iscc2")).unwrap_err();
    assert_eq!(err, RegistryError::AlreadyExists { id: "t1".to_string() });
    // No dangling content record for the second fingerprint.
    assert!(get_by_iscc_code(&reg, &"iscc2".to_string()).is_none());
    assert_eq!(query_num_tokens(&reg).count, 1);
}

#[test]
fn purchase_underpay_fails() {
    let mut reg = registry_with_t1();
    let err = execute_licensing(
        &mut reg,
        "lena".to_string(),
        vec![coin("uatom", 999)],
        "t1".to_string(),
    )
    .unwrap_err();
    assert_eq!(err, RegistryError::Unauthorized);
    assert!(query_license(&reg, &"lena".to_string(), &"t1".to_string()).is_none());
}

#[test]
fn purchase_exact_succeeds() {
    let mut reg = registry_with_t1();
    let resp = execute_licensing(
        &mut reg,
        "lena".to_string(),
        vec![coin("uatom", 1000)],
        "t1".to_string(),
    )
    .unwrap();
    assert_eq!(resp.messages.len(), 1);
    assert_eq!(resp.messages[0].to_address, "alice");
    assert_eq!(resp.messages[0].amount, vec![coin("uatom", 1000)]);
}

#[test]
fn purchase_overpay_forwards_full_amount() {
    let mut reg = registry_with_t1();
    let resp = execute_licensing(
        &mut reg,
        "lena".to_string(),
        vec![coin("uatom", 1500)],
        "t1".to_string(),
    )
    .unwrap();
    // The whole paid amount goes to the owner; no change is returned.
    assert_eq!(resp.messages[0].amount, vec![coin("uatom", 1500)]);
    let lic = query_license(&reg, &"lena".to_string(), &"t1".to_string()).unwrap();
    assert_eq!(lic.price, coin("uatom", 1500));
}

#[test]
fn purchase_wrong_denom_fails() {
    let mut reg = registry_with_t1();
    let err = execute_licensing(
        &mut reg,
        "lena".to_string(),
        vec![coin("uosmo", 1000)],
        "t1".to_string(),
    )
    .unwrap_err();
    assert_eq!(err, RegistryError::Unauthorized);
}

#[test]
fn purchase_no_funds_fails() {
    let mut reg = registry_with_t1();
    let err =
        execute_licensing(&mut reg, "lena".to_string(), Vec::new(), "t1".to_string()).unwrap_err();
    assert_eq!(err, RegistryError::Unauthorized);
}

#[test]
fn purchase_unknown_token_not_found() {
    let mut reg = registry_with_t1();
    let err = execute_licensing(
        &mut reg,
        "lena".to_string(),
        vec![coin("uatom", 1000)],
        "t9".to_string(),
    )
    .unwrap_err();
    assert_eq!(err, RegistryError::NotFound { id: "t9".to_string() });
}

#[test]
fn purchase_emits_event_with_decimal_price() {
    let mut reg = registry_with_t1();
    let resp = execute_licensing(
        &mut reg,
        "lena".to_string(),
        vec![coin("uatom", 1500)],
        "t1".to_string(),
    )
    .unwrap();
    assert_eq!(
        resp.attributes,
        vec![
            attr("action", "license"),
            attr("token_id", "t1"),
            attr("price", "1500"),
            attr("licensee", "lena"),
        ]
    );
}

#[test]
fn end_to_end_license_flow() {
    let mut reg = Registry::new();
    instantiate(
        &mut reg,
        InstantiateMsg { name: "Licium".to_string(), symbol: "LIC".to_string() },
    );
    let mut msg = mint_msg("t1", "iscc1");
    msg.license_price = coin("uatom", 1000);
    execute_mint(&mut reg, "owner1".to_string(), msg).unwrap();

    // A purchase at the exact price succeeds and pays the token's owner.
    let resp = execute_licensing(
        &mut reg,
        "lena".to_string(),
        vec![coin("uatom", 1000)],
        "t1".to_string(),
    )
    .unwrap();
    assert_eq!(resp.messages.len(), 1);
    assert_eq!(resp.messages[0].to_address, "owner1");
    assert_eq!(resp.messages[0].amount, vec![coin("uatom", 1000)]);
    let lic = query_license(&reg, &"lena".to_string(), &"t1".to_string()).unwrap();
    assert_eq!(lic.token_id, "t1");
    assert_eq!(lic.licensee, "lena");
    assert_eq!(lic.price, coin("uatom", 1000));

    // A second, underpaying purchase by the same licensee fails and leaves
    // the recorded entitlement untouched.
    let err = execute_licensing(
        &mut reg,
        "lena".to_string(),
        vec![coin("uatom", 500)],
        "t1".to_string(),
    )
    .unwrap_err();
    assert_eq!(err, RegistryError::Unauthorized);
    let lic2 = query_license(&reg, &"lena".to_string(), &"t1".to_string()).unwrap();
    assert_eq!(lic2.price, coin("uatom", 1000));
}

#[test]
fn repurchase_overwrites_entitlement() {
    let mut reg = registry_with_t1();
    execute_licensing(&mut reg, "lena".to_string(), vec![coin("uatom", 1000)], "t1".to_string())
        .unwrap();
    execute_licensing(&mut reg, "lena".to_string(), vec![coin("uatom", 2000)], "t1".to_string())
        .unwrap();
    let lic = query_license(&reg, &"lena".to_string(), &"t1".to_string()).unwrap();
    assert_eq!(lic.price, coin("uatom", 2000));
}

#[test]
fn error_kinds_are_stable() {
    assert_eq!(RegistryError::AlreadyExists { id: "x".to_string() }.kind(), "already exists");
    assert_eq!(RegistryError::NotFound { id: "x".to_string() }.kind(), "not found");
    assert_eq!(RegistryError::Unauthorized.kind(), "unauthorized");
}
