use okx_account::account::{balance_details, Method, OkxAccount, OkxClient, Credentials};
use okx_account::decimal::decimal_text;
use okx_account::error::ApiError;
use okx_account::json::string_object;
use okx_account::model::{AccountBalanceInfo, Balance};

fn account() -> OkxAccount {
    OkxAccount::new(OkxClient::new(Credentials {
        api_key: "key".to_string(),
        secret_key: "secret".to_string(),
        passphrase: "pass".to_string(),
    }))
}

fn info(details: Vec<Balance>) -> AccountBalanceInfo {
    let s = |v: &str| v.to_string();
    AccountBalanceInfo {
        adj_eq: s("10"),
        borrow_froz: s("0"),
        details,
        imr: s("0"),
        iso_eq: s("0"),
        mgn_ratio: s("0"),
        mmr: s("0"),
        notional_usd: s("0"),
        notional_usd_for_borrow: s("0"),
        notional_usd_for_futures: s("0"),
        notional_usd_for_option: s("0"),
        notional_usd_for_swap: s("0"),
        ord_froz: s("0"),
        total_eq: s("10"),
        u_time: s("1696000000000"),
        upl: s("0"),
    }
}

fn btc() -> Balance {
    Balance {
        ccy: "BTC".to_string(),
        balance: "1.5".to_string(),
        available_balance: "1.2".to_string(),
        frozen_balance: "0.3".to_string(),
        liability: None,
        available_equity: None,
        unrealized_pl: None,
    }
}

#[test]
fn test_get_balance() {
    let r = account().balance_request(None);
    assert_eq!(r.method, Method::Get);
    assert_eq!(r.path, "/api/v5/account/balance");
    assert_eq!(r.body, "");
    let balances = balance_details(vec![info(vec![btc()])]).unwrap();
    assert_eq!(balances.len(), 1);
    assert_eq!(balances[0].ccy, "BTC");
    assert_eq!(balances[0].balance, "1.5");
    assert_eq!(balances[0].available_balance, "1.2");
    assert_eq!(balances[0].frozen_balance, "0.3");
    assert_eq!(balances[0].liability, None);
    assert_eq!(balances[0].available_equity, None);
    assert_eq!(balances[0].unrealized_pl, None);
}

#[test]
fn test_get_positions() {
    let r = account().positions_request(None, None, None);
    assert_eq!(r.method, Method::Get);
    assert_eq!(r.path, "/api/v5/account/positions");
    assert_eq!(r.body, "");
}

#[test]
fn balance_of_one_currency() {
    let r = account().balance_request(Some("USDT"));
    assert_eq!(r.path, "/api/v5/account/balance?ccy=USDT");
}

#[test]
fn balance_takes_first_record_only() {
    let mut eth = btc();
    eth.ccy = "ETH".to_string();
    let balances = balance_details(vec![info(vec![eth.clone(), btc()]), info(vec![])]).unwrap();
    assert_eq!(balances, vec![eth, btc()]);
}

#[test]
fn balance_of_empty_response_fails() {
    assert!(matches!(balance_details(vec![]), Err(ApiError::EmptyResponse)));
}

#[test]
fn positions_with_every_filter() {
    let r = account().positions_request(Some("SWAP"), Some("BTC-USDT-SWAP"), Some("123"));
    assert_eq!(r.path, "/api/v5/account/positions?instType=SWAP&instId=BTC-USDT-SWAP&posId=123");
}

#[test]
fn positions_with_some_filters() {
    let a = account();
    assert_eq!(a.positions_request(None, Some("BTC-USDT"), None).path, "/api/v5/account/positions?instId=BTC-USDT");
    assert_eq!(a.positions_request(Some("SPOT"), None, Some("7")).path, "/api/v5/account/positions?instType=SPOT&posId=7");
    assert_eq!(a.positions_request(None, None, Some("7")).path, "/api/v5/account/positions?posId=7");
}

#[test]
fn account_positions_match_positions() {
    let a = account();
    let p = a.positions_request(Some("SWAP"), None, Some("9"));
    let q = a.account_positions_request(Some("SWAP"), None, Some("9"));
    assert_eq!(p.path, q.path);
    assert_eq!(q.method, Method::Get);
}

#[test]
fn config_and_risk_paths() {
    let a = account();
    let c = a.config_request();
    assert_eq!(c.path, "/api/v5/account/config");
    assert_eq!(c.method, Method::Get);
    assert_eq!(a.account_risk_request().path, "/api/v5/account/account-risk");
}

#[test]
fn set_leverage_without_side_has_no_pos_side() {
    let r = account().set_leverage_request("BTC-USDT-SWAP", "5", "cross", None).unwrap();
    assert_eq!(r.method, Method::Post);
    assert_eq!(r.path, "/api/v5/account/set-leverage");
    assert_eq!(r.body, r#"{"instId":"BTC-USDT-SWAP","lever":"5","mgnMode":"cross"}"#);
    assert!(!r.body.contains("posSide"));
}

#[test]
fn set_leverage_with_side() {
    let r = account().set_leverage_request("BTC-USDT-SWAP", "10", "isolated", Some("long")).unwrap();
    assert_eq!(r.body, r#"{"instId":"BTC-USDT-SWAP","lever":"10","mgnMode":"isolated","posSide":"long"}"#);
}

#[test]
fn json_object_escapes_values() {
    let fields = vec![("k".to_string(), "a\"b\\c".to_string())];
    assert_eq!(string_object(&fields).unwrap(), r#"{"k":"a\"b\\c"}"#);
    assert_eq!(string_object(&vec![]).unwrap(), "{}");
}

#[test]
fn max_size_fixed_order() {
    let a = account();
    let r = a.max_size_request("BTC-USDT", "cross", Some("USDT"), Some("30000"), Some("3"));
    assert_eq!(r.path, "/api/v5/account/max-size?instId=BTC-USDT&tdMode=cross&ccy=USDT&px=30000&leverage=3");
    let r = a.max_size_request("BTC-USDT", "cash", None, None, Some("3"));
    assert_eq!(r.path, "/api/v5/account/max-size?instId=BTC-USDT&tdMode=cash&leverage=3");
}

#[test]
fn bills_times_are_begin_and_end() {
    let r = account().bills_request(None, None, None, None, Some("1696000000000"), Some("1697000000000"), None);
    assert_eq!(r.path, "/api/v5/account/bills?begin=1696000000000&end=1697000000000");
    assert!(!r.path.contains("startTime"));
    assert!(!r.path.contains("endTime"));
}

#[test]
fn bills_with_every_filter() {
    let r = account().bills_request(Some("SPOT"), Some("BTC"), Some("cross"), Some("2"), Some("1"), Some("2"), Some(100));
    assert_eq!(r.path, "/api/v5/account/bills?instType=SPOT&ccy=BTC&mgnMode=cross&type=2&begin=1&end=2&limit=100");
    assert_eq!(account().bills_request(None, None, None, None, None, None, None).path, "/api/v5/account/bills");
}

#[test]
fn decimal_text_edges() {
    assert_eq!(decimal_text(0), "0");
    assert_eq!(decimal_text(7), "7");
    assert_eq!(decimal_text(10), "10");
    assert_eq!(decimal_text(u32::MAX), "4294967295");
}

#[test]
fn from_env_needs_every_credential() {
    let s = |v: &str| Some(v.to_string());
    assert!(matches!(OkxAccount::from_env(s("k"), None, s("p")), Err(ApiError::MissingCredential)));
    let a = OkxAccount::from_env(s("k"), s("s"), s("p")).unwrap();
    assert_eq!(a.client().credentials.api_key, "k");
    assert_eq!(a.client().credentials.secret_key, "s");
    assert_eq!(a.client().credentials.passphrase, "p");
}

#[test]
fn query_values_are_percent_encoded() {
    let a = account();
    let r = a.positions_request(None, Some("a b&c=d/é"), None);
    assert_eq!(r.path, "/api/v5/account/positions?instId=a%20b%26c%3Dd%2F%C3%A9");
    let r = a.balance_request(Some("A-z_0.9~"));
    assert_eq!(r.path, "/api/v5/account/balance?ccy=A-z_0.9~");
    let r = a.balance_request(Some("€😀"));
    assert_eq!(r.path, "/api/v5/account/balance?ccy=%E2%82%AC%F0%9F%98%80");
}

#[test]
fn json_object_escapes_control_characters() {
    let fields = vec![("k".to_string(), "\u{1}\n\t\u{1f}é".to_string())];
    assert_eq!(string_object(&fields).unwrap(), "{\"k\":\"\\u0001\\n\\t\\u001fé\"}");
}
