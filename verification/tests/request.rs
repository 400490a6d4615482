//! Request assembly: paths, queries, canonical messages, header policy and
//! the signed descriptors.

use btc_client::coin::Coin;
use btc_client::coin::CoinTable;
use btc_client::coin::Symbol;
use btc_client::base::Side;
use btc_client::context::AuthContext;
use btc_client::error::RequestBuildError;
use btc_client::request::account_balance_request;
use btc_client::request::active_orders_request;
use btc_client::request::all_symbols_request;
use btc_client::request::build_orderbook_query;
use btc_client::request::cancel_order_by_id_request;
use btc_client::request::create_limit_order_request;
use btc_client::request::create_market_order_request;
use btc_client::request::get_message;
use btc_client::request::order_by_id_request;
use btc_client::request::orderbook_exact_symbol_request;
use btc_client::request::orderbook_request;
use btc_client::request::trading_commission_request;
use btc_client::request::BaseUrl;
use btc_client::request::Method;
use btc_client::text::i64_to_dec;
use btc_client::text::u64_to_dec;
use btc_client::typed;

fn base() -> BaseUrl {
    BaseUrl::new("https://api.example.com".to_string(), "/api/2".to_string()).unwrap()
}

fn ctx() -> AuthContext {
    AuthContext::new("PUBLIC_KEY".to_string(), "SECRET_KEY".to_string()).unwrap()
}

#[test]
fn orderbook_query_assembly() {
    let symbols = vec![
        Symbol::new(Coin::BTC, Coin::USDT),
        Symbol::new(Coin::TON, Coin::USDT),
    ];
    let query = build_orderbook_query(&CoinTable::current(), Some(10), Some(&symbols)).unwrap();
    assert_eq!(query.as_str(), "symbols=BTCUSDT,TONUSDT&limit=10");
}

#[test]
fn orderbook_query_without_limit() {
    let symbols = vec![Symbol::new(Coin::BTC, Coin::USDT)];
    let query = build_orderbook_query(&CoinTable::current(), None, Some(&symbols)).unwrap();
    assert_eq!(query.as_str(), "symbols=BTCUSDT");
    let query = build_orderbook_query(&CoinTable::current(), Some(5), None).unwrap();
    assert_eq!(query.as_str(), "limit=5");
    let query = build_orderbook_query(&CoinTable::current(), None, None).unwrap();
    assert_eq!(query.as_str(), "");
}

#[test]
fn canonical_message_is_plain_concatenation() {
    let message = get_message(Method::Delete, "1610000000", "/api/2/order?symbol=BTCUSD", "{}");
    assert_eq!(
        message.as_str(),
        "DELETE1610000000/api/2/order?symbol=BTCUSD{}"
    );
}

#[test]
fn account_balance_descriptor() {
    let d = account_balance_request(&ctx(), &base(), "1610000000").unwrap();
    assert_eq!(d.path_with_query.as_str(), "/api/2/account/balance");
    assert_eq!(d.url.as_str(), "https://api.example.com/api/2/account/balance");
    assert_eq!(d.timestamp.as_deref(), Some("1610000000"));
    assert_eq!(d.accept(), "application/json");
    assert!(d.content_type().is_none());
    assert!(d.body.is_none());
    let auth = d.authorization.clone().unwrap();
    let direct = btc_client::context::sign_with(
        "PUBLIC_KEY",
        "SECRET_KEY",
        "1610000000",
        "GET1610000000/api/2/account/balance",
    );
    assert_eq!(auth, direct);
}

#[test]
fn active_orders_descriptor_with_symbol() {
    let symbol = Symbol::new(Coin::BTC, Coin::USDT);
    let d = active_orders_request(
        &ctx(),
        &base(),
        &CoinTable::legacy(),
        Some(&symbol),
        "1610000000",
    )
    .unwrap();
    assert_eq!(d.path_with_query.as_str(), "/api/2/order?symbol=BTCUSD");
    let d = active_orders_request(&ctx(), &base(), &CoinTable::legacy(), None, "1610000000")
        .unwrap();
    assert_eq!(d.path_with_query.as_str(), "/api/2/order");
}

#[test]
fn order_by_id_descriptor() {
    let d = order_by_id_request(&ctx(), &base(), "order-7", Some(30000), "1610000000").unwrap();
    assert_eq!(d.path_with_query.as_str(), "/api/2/order/order-7?wait=30000");
    assert_eq!(d.method, Method::Get);
}

#[test]
fn invalid_segment_is_a_build_error() {
    let result = order_by_id_request(&ctx(), &base(), "a/b", None, "1610000000");
    assert!(matches!(result, Err(RequestBuildError::InvalidPathSegment)));
    let result = cancel_order_by_id_request(&ctx(), &base(), "", "1610000000");
    assert!(matches!(result, Err(RequestBuildError::InvalidPathSegment)));
}

#[test]
fn invalid_query_value_is_a_build_error() {
    let symbol = Symbol::new(Coin::Unknown("A&B=1".to_string()), Coin::USDT);
    let result = active_orders_request(
        &ctx(),
        &base(),
        &CoinTable::legacy(),
        Some(&symbol),
        "1610000000",
    );
    assert!(matches!(result, Err(RequestBuildError::InvalidQueryValue)));
}

#[test]
fn invalid_base_url_is_rejected() {
    let bad = BaseUrl::new("https://api.example.com".to_string(), "api".to_string());
    assert!(matches!(bad, Err(RequestBuildError::InvalidBaseUrl)));
    let bad = BaseUrl::new("https://a?x=1".to_string(), "".to_string());
    assert!(matches!(bad, Err(RequestBuildError::InvalidBaseUrl)));
}

#[test]
fn cancel_descriptor_uses_delete() {
    let d = cancel_order_by_id_request(&ctx(), &base(), "id1", "1610000000").unwrap();
    assert_eq!(d.method, Method::Delete);
    assert_eq!(d.path_with_query.as_str(), "/api/2/order/id1");
}

#[test]
fn trading_commission_descriptor() {
    let symbol = Symbol::new(Coin::TON, Coin::USDT);
    let d = trading_commission_request(
        &ctx(),
        &base(),
        &CoinTable::legacy(),
        &symbol,
        "1610000000",
    )
    .unwrap();
    assert_eq!(d.path_with_query.as_str(), "/api/2/trading/fee/TONUSD");
}

#[test]
fn market_order_descriptor_signs_exact_body() {
    let order = typed::CreateMarketOrder::new(
        Symbol::new(Coin::BTC, Coin::USDT),
        Side::Sell,
        "0.5".to_string(),
    )
    .unwrap();
    let d = create_market_order_request(&ctx(), &base(), order, "1610000000").unwrap();
    let body = d.body.clone().unwrap();
    assert_eq!(
        body.as_str(),
        "{\"symbol\":\"BTCUSD\",\"side\":\"sell\",\"quantity\":\"0.5\",\"type\":\"market\"}"
    );
    assert_eq!(d.content_type(), Some("application/json"));
    assert_eq!(d.method, Method::Post);
    let canonical = format!("POST1610000000/api/2/order{}", body);
    let direct = btc_client::context::sign_with(
        "PUBLIC_KEY",
        "SECRET_KEY",
        "1610000000",
        canonical.as_str(),
    );
    assert_eq!(d.authorization.clone().unwrap(), direct);
}

#[test]
fn limit_order_descriptor_body() {
    let order = typed::CreateLimitOrder::new(
        Symbol::new(Coin::TON, Coin::BTC),
        Side::Buy,
        "100".to_string(),
        "0.0001".to_string(),
    )
    .unwrap();
    let d = create_limit_order_request(&ctx(), &base(), order, "1610000000").unwrap();
    assert_eq!(
        d.body.clone().unwrap().as_str(),
        "{\"symbol\":\"TONBTC\",\"side\":\"buy\",\"quantity\":\"100\",\"price\":\"0.0001\"}"
    );
}

#[test]
fn bad_decimal_quantity_is_rejected() {
    let rejected = typed::CreateMarketOrder::new(
        Symbol::new(Coin::BTC, Coin::USDT),
        Side::Sell,
        "0.5.1".to_string(),
    );
    assert!(matches!(rejected, Err(RequestBuildError::InvalidBodyField)));
    let rejected = typed::CreateLimitOrder::new(
        Symbol::new(Coin::BTC, Coin::USDT),
        Side::Sell,
        "1".to_string(),
        ".5".to_string(),
    );
    assert!(matches!(rejected, Err(RequestBuildError::InvalidBodyField)));
}

#[test]
fn orderbook_descriptor_with_query() {
    let symbols = vec![Symbol::new(Coin::BTC, Coin::USDT)];
    let d = orderbook_request(&base(), &CoinTable::current(), Some(10), Some(&symbols)).unwrap();
    assert_eq!(
        d.path_with_query.as_str(),
        "/api/2/public/orderbook?symbols=BTCUSDT&limit=10"
    );
    assert!(d.authorization.is_none());
    assert!(d.timestamp.is_none());
}

#[test]
fn orderbook_exact_volume_takes_precedence() {
    let symbol = Symbol::new(Coin::BTC, Coin::USDT);
    let d = orderbook_exact_symbol_request(
        &base(),
        &CoinTable::legacy(),
        &symbol,
        Some(10),
        Some("1.5"),
    )
    .unwrap();
    assert_eq!(
        d.path_with_query.as_str(),
        "/api/2/public/orderbook/BTCUSD?volume=1.5"
    );
    let d = orderbook_exact_symbol_request(&base(), &CoinTable::legacy(), &symbol, Some(10), None)
        .unwrap();
    assert_eq!(
        d.path_with_query.as_str(),
        "/api/2/public/orderbook/BTCUSD?limit=10"
    );
}

#[test]
fn public_symbols_descriptor() {
    let d = all_symbols_request(&base()).unwrap();
    assert_eq!(d.url.as_str(), "https://api.example.com/api/2/public/symbol");
}

#[test]
fn decimal_rendering() {
    assert_eq!(u64_to_dec(0).as_str(), "0");
    assert_eq!(u64_to_dec(30000).as_str(), "30000");
    assert_eq!(u64_to_dec(u64::MAX).as_str(), "18446744073709551615");
    assert_eq!(i64_to_dec(1610000000).as_str(), "1610000000");
    assert_eq!(i64_to_dec(-7).as_str(), "-7");
    assert_eq!(i64_to_dec(i64::MIN).as_str(), "-9223372036854775808");
}
