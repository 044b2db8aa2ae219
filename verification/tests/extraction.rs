//! Tests for trade-event extraction from raw messages.

use copytrader::monitor::{
    AccountKey, ExtractError, TokenBalance, TradeInfoFromToken, TxMessage, JUP_PUBKEY,
    PUMP_PROGRAM, SUBSCRIPTION_MSG,
};

fn key(pubkey: &str, signer: bool) -> AccountKey {
    AccountKey { pubkey: pubkey.to_string(), signer }
}

fn bal(owner: &str, mint: &str, ui_amount: Option<u64>) -> TokenBalance {
    TokenBalance { owner: owner.to_string(), mint: mint.to_string(), ui_amount }
}

/// A typical trade notification: signer A, pool P, A's token balance going
/// from 0 to 10 tokens, the pool's lamports from 1.0 to 0.9 native units.
fn typical_message() -> TxMessage {
    TxMessage {
        slot: 3321,
        signature: "5igsig".to_string(),
        account_keys: Some(vec![key("A", true), key("P", false), key("X", false)]),
        pre_token_balances: Some(vec![bal("A", "MINT", Some(0))]),
        post_token_balances: Some(vec![
            bal("A", "MINT", Some(10_000_000_000)),
            bal("P", "MINT", Some(77)),
        ]),
        pre_balances: vec![5, 1_000_000_000, 9],
        post_balances: vec![6, 900_000_000, 9],
    }
}

#[test]
fn extracts_typical_trade() {
    let t = TradeInfoFromToken::from_json(&typical_message()).unwrap();
    assert_eq!(t.slot, 3321);
    assert_eq!(t.signature, "5igsig");
    assert_eq!(t.target, "A");
    assert_eq!(t.mint, "MINT");
    assert_eq!(t.token_amount_list.token_pre_amount, 0);
    assert_eq!(t.token_amount_list.token_post_amount, 10_000_000_000);
    // The pool owner "P" sits at index 1 of the account keys.
    assert_eq!(t.sol_amount_list.sol_pre_amount, 1_000_000_000);
    assert_eq!(t.sol_amount_list.sol_post_amount, 900_000_000);
}

#[test]
fn extraction_is_repeatable() {
    let m = typical_message();
    let first = TradeInfoFromToken::from_json(&m);
    let second = TradeInfoFromToken::from_json(&m);
    assert_eq!(first, second);

    let broken = TxMessage { account_keys: None, ..typical_message() };
    let first = TradeInfoFromToken::from_json(&broken);
    let second = TradeInfoFromToken::from_json(&broken);
    assert_eq!(first, second);
}

#[test]
fn missing_account_keys_is_not_a_trade() {
    let m = TxMessage { account_keys: None, ..typical_message() };
    assert_eq!(
        TradeInfoFromToken::from_json(&m),
        Err(ExtractError::NotTradeMessage)
    );
}

#[test]
fn missing_signer_is_malformed() {
    let m = TxMessage {
        account_keys: Some(vec![key("A", false), key("P", false)]),
        ..typical_message()
    };
    assert_eq!(
        TradeInfoFromToken::from_json(&m),
        Err(ExtractError::MalformedTrade)
    );
}

#[test]
fn empty_signer_pubkey_is_malformed() {
    let m = TxMessage {
        account_keys: Some(vec![key("", true), key("P", false)]),
        ..typical_message()
    };
    assert_eq!(
        TradeInfoFromToken::from_json(&m),
        Err(ExtractError::MalformedTrade)
    );
}

#[test]
fn first_signer_wins() {
    let m = TxMessage {
        account_keys: Some(vec![key("A", false), key("B", true), key("C", true)]),
        ..typical_message()
    };
    let t = TradeInfoFromToken::from_json(&m).unwrap();
    assert_eq!(t.target, "B");
}

#[test]
fn balances_default_to_zero() {
    // No token-balance lists, empty native-balance lists: everything is 0.
    let m = TxMessage {
        account_keys: Some(vec![key("A", true)]),
        pre_token_balances: None,
        post_token_balances: None,
        pre_balances: vec![],
        post_balances: vec![],
        ..typical_message()
    };
    let t = TradeInfoFromToken::from_json(&m).unwrap();
    assert_eq!(t.mint, "");
    assert_eq!(t.token_amount_list.token_pre_amount, 0);
    assert_eq!(t.token_amount_list.token_post_amount, 0);
    assert_eq!(t.sol_amount_list.sol_pre_amount, 0);
    assert_eq!(t.sol_amount_list.sol_post_amount, 0);
}

#[test]
fn entry_without_amount_counts_as_zero() {
    let m = TxMessage {
        post_token_balances: Some(vec![bal("A", "MINT", None)]),
        ..typical_message()
    };
    let t = TradeInfoFromToken::from_json(&m).unwrap();
    assert_eq!(t.token_amount_list.token_post_amount, 0);
}

#[test]
fn first_owned_entry_wins() {
    let m = TxMessage {
        post_token_balances: Some(vec![
            bal("A", "MINT", Some(4)),
            bal("A", "MINT", Some(9)),
        ]),
        ..typical_message()
    };
    let t = TradeInfoFromToken::from_json(&m).unwrap();
    assert_eq!(t.token_amount_list.token_post_amount, 4);
}

#[test]
fn last_balance_entry_sets_the_mint() {
    let m = TxMessage {
        post_token_balances: Some(vec![
            bal("P", "EARLY", Some(1)),
            bal("A", "LATE", Some(2)),
        ]),
        ..typical_message()
    };
    let t = TradeInfoFromToken::from_json(&m).unwrap();
    assert_eq!(t.mint, "LATE");
}

#[test]
fn last_non_actor_owner_is_the_pool() {
    // Owners: P then Q; the pool is Q, which sits at key index 2.
    let m = TxMessage {
        account_keys: Some(vec![key("A", true), key("P", false), key("Q", false)]),
        post_token_balances: Some(vec![
            bal("P", "MINT", Some(1)),
            bal("Q", "MINT", Some(2)),
            bal("A", "MINT", Some(3)),
        ]),
        pre_balances: vec![10, 20, 30],
        post_balances: vec![11, 21, 31],
        ..typical_message()
    };
    let t = TradeInfoFromToken::from_json(&m).unwrap();
    assert_eq!(t.sol_amount_list.sol_pre_amount, 30);
    assert_eq!(t.sol_amount_list.sol_post_amount, 31);
}

#[test]
fn unknown_pool_owner_falls_back_to_index_zero() {
    // The only non-actor owner is not among the account keys.
    let m = TxMessage {
        account_keys: Some(vec![key("A", true), key("P", false)]),
        post_token_balances: Some(vec![bal("Z", "MINT", Some(1))]),
        pre_balances: vec![41, 42],
        post_balances: vec![51, 52],
        ..typical_message()
    };
    let t = TradeInfoFromToken::from_json(&m).unwrap();
    assert_eq!(t.sol_amount_list.sol_pre_amount, 41);
    assert_eq!(t.sol_amount_list.sol_post_amount, 51);
}

#[test]
fn pool_index_out_of_balance_range_reads_zero() {
    // Pool "P" is at key index 1 but the balance lists have one entry.
    let m = TxMessage {
        account_keys: Some(vec![key("A", true), key("P", false)]),
        post_token_balances: Some(vec![bal("P", "MINT", Some(1))]),
        pre_balances: vec![7],
        post_balances: vec![8],
        ..typical_message()
    };
    let t = TradeInfoFromToken::from_json(&m).unwrap();
    assert_eq!(t.sol_amount_list.sol_pre_amount, 0);
    assert_eq!(t.sol_amount_list.sol_post_amount, 0);
}

#[test]
fn subscription_frame_is_well_formed() {
    let v: serde_json::Value = serde_json::from_str(SUBSCRIPTION_MSG).unwrap();
    assert_eq!(v["method"].as_str(), Some("transactionSubscribe"));
    assert_eq!(v["params"][0]["failed"].as_bool(), Some(false));
    assert_eq!(
        v["params"][0]["accountInclude"][0].as_str(),
        Some(PUMP_PROGRAM)
    );
    assert_eq!(v["params"][0]["accountExclude"][0].as_str(), Some(JUP_PUBKEY));
    assert_eq!(v["params"][1]["commitment"].as_str(), Some("processed"));
    assert_eq!(v["params"][1]["encoding"].as_str(), Some("jsonParsed"));
    assert_eq!(v["params"][1]["transactionDetails"].as_str(), Some("full"));
}
