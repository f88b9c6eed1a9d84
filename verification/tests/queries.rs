//! The query service and the ownership capability interface.

use licium_cw721::contract::{
    Registry, execute, execute_approve, execute_approve_all, execute_mint, execute_revoke,
    execute_revoke_all, execute_send_nft, execute_transfer_nft, get_by_iscc_code, instantiate,
    query, query_all_approvals, query_all_nft_info, query_all_tokens, query_contract_info,
    query_nft_info, query_owner_of, query_tokens,
};
use licium_cw721::error::RegistryError;
use licium_cw721::msg::{ExecuteMsg, InstantiateMsg, MintMsg, QueryAnswer, QueryMsg};
use licium_cw721::types::{BlockInfo, Coin, Expiry};

fn coin(denom: &str, amount: u128) -> Coin {
    Coin { denom: denom.to_string(), amount }
}

fn mint_msg(token_id: &str, iscc_code: &str) -> MintMsg {
    MintMsg {
        token_id: token_id.to_string(),
        iscc_code: iscc_code.to_string(),
        meta_id: format!("meta-{}", iscc_code),
        data_id: format!("data-{}", iscc_code),
        instance_id: format!("inst-{}", iscc_code),
        tophash: format!("hash-{}", iscc_code),
        owner: "alice".to_string(),
        name: format!("asset {}", token_id),
        description: "a media asset".to_string(),
        image: "ipfs://image".to_string(),
        license_url: "https://example.invalid/license".to_string(),
        license_price: coin("uatom", 1000),
    }
}

fn block(height: u64, time_nanos: u64) -> BlockInfo {
    BlockInfo { height, time_nanos }
}

#[test]
fn resolve_roundtrip_intact() {
    let mut reg = Registry::new();
    execute_mint(&mut reg, "alice".to_string(), mint_msg("t1", "iscc1")).unwrap();
    let rec = get_by_iscc_code(&reg, &"iscc1".to_string()).unwrap();
    assert_eq!(rec.token_id, "t1");
    assert_eq!(rec.owner, "alice");
    assert_eq!(rec.name, "asset t1");
    assert_eq!(rec.description.as_deref(), Some("a media asset"));
    assert_eq!(rec.image.as_deref(), Some("ipfs://image"));
    assert_eq!(rec.meta_id, "meta-iscc1");
    assert_eq!(rec.iscc_code, "iscc1");
    assert_eq!(rec.data_id, "data-iscc1");
    assert_eq!(rec.instance_id, "inst-iscc1");
    assert_eq!(rec.tophash, "hash-iscc1");
    assert_eq!(rec.license_url, "https://example.invalid/license");
    assert_eq!(rec.license_price, coin("uatom", 1000));
}

#[test]
fn resolve_unknown_fingerprint_is_none() {
    let reg = Registry::new();
    assert!(get_by_iscc_code(&reg, &"nothing".to_string()).is_none());
}

#[test]
fn contract_info_roundtrip() {
    let mut reg = Registry::new();
    let err = query_contract_info(&reg).unwrap_err();
    assert_eq!(err, RegistryError::NotFound { id: "contract_info".to_string() });
    instantiate(
        &mut reg,
        InstantiateMsg { name: "Licium".to_string(), symbol: "LIC".to_string() },
    );
    let info = query_contract_info(&reg).unwrap();
    assert_eq!(info.name, "Licium");
    assert_eq!(info.symbol, "LIC");
}

#[test]
fn nft_info_and_unknown() {
    let mut reg = Registry::new();
    execute_mint(&mut reg, "alice".to_string(), mint_msg("t1", "iscc1")).unwrap();
    let info = query_nft_info(&reg, &"t1".to_string()).unwrap();
    assert_eq!(info.name, "asset t1");
    assert_eq!(info.description, "a media asset");
    assert_eq!(info.image.as_deref(), Some("ipfs://image"));
    let err = query_nft_info(&reg, &"t9".to_string()).unwrap_err();
    assert_eq!(err, RegistryError::NotFound { id: "t9".to_string() });
}

#[test]
fn owner_of_filters_expired_approvals() {
    let mut reg = Registry::new();
    execute_mint(&mut reg, "alice".to_string(), mint_msg("t1", "iscc1")).unwrap();
    execute_approve(
        &mut reg,
        "alice".to_string(),
        "bob".to_string(),
        "t1".to_string(),
        Some(Expiry::AtHeight(100)),
    )
    .unwrap();
    execute_approve(
        &mut reg,
        "alice".to_string(),
        "carol".to_string(),
        "t1".to_string(),
        Some(Expiry::AtTime(5_000)),
    )
    .unwrap();
    execute_approve(&mut reg, "alice".to_string(), "dan".to_string(), "t1".to_string(), None)
        .unwrap();

    // Before anything lapses, all three approvals are visible.
    let o = query_owner_of(&reg, &"t1".to_string(), false, &block(50, 1_000)).unwrap();
    assert_eq!(o.owner, "alice");
    assert_eq!(o.approvals.len(), 3);

    // At height 150 and time 5_000, bob's and carol's approvals have lapsed.
    let o = query_owner_of(&reg, &"t1".to_string(), false, &block(150, 5_000)).unwrap();
    assert_eq!(o.approvals.len(), 1);
    assert_eq!(o.approvals[0].spender, "dan");

    // Asking to include expired entries shows them again.
    let o = query_owner_of(&reg, &"t1".to_string(), true, &block(150, 5_000)).unwrap();
    assert_eq!(o.approvals.len(), 3);
}

#[test]
fn approve_replaces_and_revoke_removes() {
    let mut reg = Registry::new();
    execute_mint(&mut reg, "alice".to_string(), mint_msg("t1", "iscc1")).unwrap();
    execute_approve(
        &mut reg,
        "alice".to_string(),
        "bob".to_string(),
        "t1".to_string(),
        Some(Expiry::AtHeight(100)),
    )
    .unwrap();
    execute_approve(
        &mut reg,
        "alice".to_string(),
        "bob".to_string(),
        "t1".to_string(),
        Some(Expiry::AtHeight(200)),
    )
    .unwrap();
    let o = query_owner_of(&reg, &"t1".to_string(), true, &block(1, 1)).unwrap();
    assert_eq!(o.approvals.len(), 1);
    assert_eq!(o.approvals[0].expires, Expiry::AtHeight(200));

    execute_revoke(&mut reg, "alice".to_string(), "bob".to_string(), "t1".to_string()).unwrap();
    let o = query_owner_of(&reg, &"t1".to_string(), true, &block(1, 1)).unwrap();
    assert!(o.approvals.is_empty());
}

#[test]
fn transfer_changes_owner_and_clears_approvals() {
    let mut reg = Registry::new();
    execute_mint(&mut reg, "alice".to_string(), mint_msg("t1", "iscc1")).unwrap();
    execute_approve(&mut reg, "alice".to_string(), "bob".to_string(), "t1".to_string(), None)
        .unwrap();
    execute_transfer_nft(&mut reg, "alice".to_string(), "erin".to_string(), "t1".to_string())
        .unwrap();
    let o = query_owner_of(&reg, &"t1".to_string(), true, &block(1, 1)).unwrap();
    assert_eq!(o.owner, "erin");
    assert!(o.approvals.is_empty());
    let err = execute_transfer_nft(&mut reg, "x".to_string(), "y".to_string(), "t9".to_string())
        .unwrap_err();
    assert_eq!(err, RegistryError::NotFound { id: "t9".to_string() });
}

#[test]
fn send_changes_owner() {
    let mut reg = Registry::new();
    execute_mint(&mut reg, "alice".to_string(), mint_msg("t1", "iscc1")).unwrap();
    let resp = execute_send_nft(
        &mut reg,
        "alice".to_string(),
        "some_contract".to_string(),
        "t1".to_string(),
    )
    .unwrap();
    assert_eq!(resp.attributes[0].value, "send_nft");
    let o = query_owner_of(&reg, &"t1".to_string(), true, &block(1, 1)).unwrap();
    assert_eq!(o.owner, "some_contract");
}

#[test]
fn approved_for_all_pagination_and_expiry() {
    let mut reg = Registry::new();
    execute_approve_all(&mut reg, "alice".to_string(), "op1".to_string(), None);
    execute_approve_all(
        &mut reg,
        "alice".to_string(),
        "op2".to_string(),
        Some(Expiry::AtHeight(10)),
    );
    execute_approve_all(&mut reg, "alice".to_string(), "op3".to_string(), None);
    execute_approve_all(&mut reg, "bob".to_string(), "op9".to_string(), None);

    // All of alice's operators, ascending, expired one filtered at height 50.
    let r = query_all_approvals(&reg, &"alice".to_string(), false, None, None, &block(50, 0));
    let names: Vec<&str> = r.operators.iter().map(|a| a.spender.as_str()).collect();
    assert_eq!(names, vec!["op1", "op3"]);

    // Included when asked for, and paginated by cursor.
    let r = query_all_approvals(&reg, &"alice".to_string(), true, None, Some(2), &block(50, 0));
    let names: Vec<&str> = r.operators.iter().map(|a| a.spender.as_str()).collect();
    assert_eq!(names, vec!["op1", "op2"]);
    let cursor = "op2".to_string();
    let r = query_all_approvals(
        &reg,
        &"alice".to_string(),
        true,
        Some(&cursor),
        Some(2),
        &block(50, 0),
    );
    let names: Vec<&str> = r.operators.iter().map(|a| a.spender.as_str()).collect();
    assert_eq!(names, vec!["op3"]);

    // Revocation removes the operator.
    execute_revoke_all(&mut reg, "alice".to_string(), "op1".to_string());
    let r = query_all_approvals(&reg, &"alice".to_string(), true, None, None, &block(50, 0));
    let names: Vec<&str> = r.operators.iter().map(|a| a.spender.as_str()).collect();
    assert_eq!(names, vec!["op2", "op3"]);
}

#[test]
fn tokens_by_owner() {
    let mut reg = Registry::new();
    execute_mint(&mut reg, "alice".to_string(), mint_msg("a2", "i1")).unwrap();
    execute_mint(&mut reg, "bob".to_string(), mint_msg("b1", "i2")).unwrap();
    execute_mint(&mut reg, "alice".to_string(), mint_msg("a1", "i3")).unwrap();
    let r = query_tokens(&reg, &"alice".to_string(), None, None);
    assert_eq!(r.tokens, vec!["a1".to_string(), "a2".to_string()]);
    let r = query_tokens(&reg, &"bob".to_string(), None, None);
    assert_eq!(r.tokens, vec!["b1".to_string()]);
    let r = query_tokens(&reg, &"nobody".to_string(), None, None);
    assert!(r.tokens.is_empty());
}

fn registry_with_many_tokens(n: usize) -> Registry {
    let mut reg = Registry::new();
    for i in 0..n {
        let id = format!("t{:02}", i);
        let code = format!("iscc{:02}", i);
        execute_mint(&mut reg, "alice".to_string(), mint_msg(&id, &code)).unwrap();
    }
    reg
}

#[test]
fn all_tokens_limit_is_capped_at_thirty() {
    let reg = registry_with_many_tokens(35);
    let r = query_all_tokens(&reg, None, Some(100));
    assert_eq!(r.tokens.len(), 30);
}

#[test]
fn all_tokens_default_limit_is_ten() {
    let reg = registry_with_many_tokens(15);
    let r = query_all_tokens(&reg, None, None);
    assert_eq!(r.tokens.len(), 10);
}

#[test]
fn all_tokens_no_cursor_starts_at_minimum() {
    let reg = registry_with_many_tokens(5);
    let r = query_all_tokens(&reg, None, Some(3));
    assert_eq!(r.tokens, vec!["t00".to_string(), "t01".to_string(), "t02".to_string()]);
}

#[test]
fn all_tokens_two_pages_partition() {
    let reg = registry_with_many_tokens(25);
    let first = query_all_tokens(&reg, None, Some(10));
    assert_eq!(first.tokens.len(), 10);
    let cursor = first.tokens.last().unwrap().clone();
    let second = query_all_tokens(&reg, Some(&cursor), Some(10));
    assert_eq!(second.tokens.len(), 10);
    // No overlap, no gap: the two pages are the first twenty ids in order.
    let mut joined = first.tokens.clone();
    joined.extend(second.tokens.iter().cloned());
    let expected: Vec<String> = (0..20).map(|i| format!("t{:02}", i)).collect();
    assert_eq!(joined, expected);
}

#[test]
fn execute_dispatches_each_command() {
    let mut reg = Registry::new();
    let r = execute(
        &mut reg,
        "alice".to_string(),
        Vec::new(),
        ExecuteMsg::Mint(mint_msg("t1", "iscc1")),
    );
    assert!(r.is_ok());
    let r = execute(
        &mut reg,
        "lena".to_string(),
        vec![coin("uatom", 1000)],
        ExecuteMsg::License { token_id: "t1".to_string() },
    );
    assert!(r.is_ok());
    let r = execute(
        &mut reg,
        "alice".to_string(),
        Vec::new(),
        ExecuteMsg::Approve {
            spender: "bob".to_string(),
            token_id: "t1".to_string(),
            expires: None,
        },
    );
    assert!(r.is_ok());
    let r = execute(
        &mut reg,
        "alice".to_string(),
        Vec::new(),
        ExecuteMsg::Revoke { spender: "bob".to_string(), token_id: "t1".to_string() },
    );
    assert!(r.is_ok());
    let r = execute(
        &mut reg,
        "alice".to_string(),
        Vec::new(),
        ExecuteMsg::ApproveAll { operator: "op".to_string(), expires: None },
    );
    assert!(r.is_ok());
    let r = execute(
        &mut reg,
        "alice".to_string(),
        Vec::new(),
        ExecuteMsg::RevokeAll { operator: "op".to_string() },
    );
    assert!(r.is_ok());
    let r = execute(
        &mut reg,
        "alice".to_string(),
        Vec::new(),
        ExecuteMsg::TransferNft { recipient: "erin".to_string(), token_id: "t1".to_string() },
    );
    assert!(r.is_ok());
    let r = execute(
        &mut reg,
        "erin".to_string(),
        Vec::new(),
        ExecuteMsg::SendNft {
            contract: "ctr".to_string(),
            token_id: "t1".to_string(),
            msg: vec![1, 2, 3],
        },
    );
    assert!(r.is_ok());
}

#[test]
fn query_dispatches_each_shape() {
    let mut reg = Registry::new();
    instantiate(
        &mut reg,
        InstantiateMsg { name: "Licium".to_string(), symbol: "LIC".to_string() },
    );
    execute_mint(&mut reg, "alice".to_string(), mint_msg("t1", "iscc1")).unwrap();
    let b = block(1, 1);

    match query(&reg, &b, QueryMsg::ContractInfo {}).unwrap() {
        QueryAnswer::ContractInfo(c) => assert_eq!(c.name, "Licium"),
        other => panic!("unexpected answer {:?}", other),
    }
    match query(&reg, &b, QueryMsg::NumTokens {}).unwrap() {
        QueryAnswer::NumTokens(n) => assert_eq!(n.count, 1),
        other => panic!("unexpected answer {:?}", other),
    }
    match query(&reg, &b, QueryMsg::NftInfo { token_id: "t1".to_string() }).unwrap() {
        QueryAnswer::NftInfo(n) => assert_eq!(n.name, "asset t1"),
        other => panic!("unexpected answer {:?}", other),
    }
    match query(
        &reg,
        &b,
        QueryMsg::OwnerOf { token_id: "t1".to_string(), include_expired: None },
    )
    .unwrap()
    {
        QueryAnswer::OwnerOf(o) => assert_eq!(o.owner, "alice"),
        other => panic!("unexpected answer {:?}", other),
    }
    match query(
        &reg,
        &b,
        QueryMsg::AllNftInfo { token_id: "t1".to_string(), include_expired: None },
    )
    .unwrap()
    {
        QueryAnswer::AllNftInfo(a) => {
            assert_eq!(a.access.owner, "alice");
            assert_eq!(a.info.name, "asset t1");
        },
        other => panic!("unexpected answer {:?}", other),
    }
    match query(
        &reg,
        &b,
        QueryMsg::ApprovedForAll {
            owner: "alice".to_string(),
            include_expired: None,
            start_after: None,
            limit: None,
        },
    )
    .unwrap()
    {
        QueryAnswer::ApprovedForAll(a) => assert!(a.operators.is_empty()),
        other => panic!("unexpected answer {:?}", other),
    }
    match query(
        &reg,
        &b,
        QueryMsg::Tokens { owner: "alice".to_string(), start_after: None, limit: None },
    )
    .unwrap()
    {
        QueryAnswer::Tokens(t) => assert_eq!(t.tokens, vec!["t1".to_string()]),
        other => panic!("unexpected answer {:?}", other),
    }
    match query(&reg, &b, QueryMsg::AllTokens { start_after: None, limit: None }).unwrap() {
        QueryAnswer::AllTokens(t) => assert_eq!(t.tokens, vec!["t1".to_string()]),
        other => panic!("unexpected answer {:?}", other),
    }
    match query(&reg, &b, QueryMsg::GetByIsccCode { iscc_code: "iscc1".to_string() }).unwrap() {
        QueryAnswer::Resolved(r) => assert_eq!(r.unwrap().token_id, "t1"),
        other => panic!("unexpected answer {:?}", other),
    }
}

#[test]
fn all_nft_info_unknown_token() {
    let reg = Registry::new();
    let err = query_all_nft_info(&reg, &"t9".to_string(), false, &block(1, 1)).unwrap_err();
    assert_eq!(err, RegistryError::NotFound { id: "t9".to_string() });
}
