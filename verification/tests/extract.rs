//! Response decoding: typed successes, the exchange's error envelope, and
//! deserialization failures that keep the raw bytes.

use btc_client::base::Side;
use btc_client::coin::Coin;
use btc_client::coin::Symbol;
use btc_client::error::ExtractError;
use btc_client::extractor::extract_balance;
use btc_client::extractor::extract_error;
use btc_client::extractor::extract_order;
use btc_client::extractor::extract_orderbook;
use btc_client::extractor::extract_orderbook_exact_symbol;
use btc_client::extractor::extract_orders;
use btc_client::extractor::extract_symbols;
use btc_client::extractor::extract_trading_commission;
use btc_client::extractor::extract_currencies;
use btc_client::typed::OrderBookPage;

#[test]
fn decode_failure_keeps_the_bytes() {
    let body = b"not json".to_vec();
    let result = extract_balance(200, body.clone());
    match result {
        Err(ExtractError::Deserialization { bytes, diagnostic }) => {
            assert_eq!(bytes, body);
            assert!(!diagnostic.is_empty());
        },
        other => panic!("expected a deserialization error, got {:?}", other.is_ok()),
    }
}

#[test]
fn schema_mismatch_is_not_a_success() {
    // A well-formed JSON document of the wrong shape: still an error, never
    // an empty balance.
    let result = extract_balance(200, b"{\"value\":1}".to_vec());
    assert!(matches!(result, Err(ExtractError::Deserialization { .. })));
}

#[test]
fn balance_decodes() {
    let body = b"[{\"currency\":\"BTC\",\"available\":\"1.00\",\"reserved\":\"0.50\"}]".to_vec();
    let balance = extract_balance(200, body).unwrap();
    assert_eq!(balance.len(), 1);
    assert_eq!(balance[0].currency.as_str(), "BTC");
    assert_eq!(balance[0].available.as_str(), "1.00");
    assert_eq!(balance[0].reserved.as_str(), "0.50");
}

#[test]
fn failure_status_yields_the_error_envelope() {
    let body =
        b"{\"error\":{\"code\":20001,\"message\":\"Insufficient funds\",\"description\":\"d\"}}"
            .to_vec();
    let result = extract_balance(400, body);
    match result {
        Err(ExtractError::Api(e)) => {
            assert_eq!(e.code, 20001);
            assert_eq!(e.message.as_str(), "Insufficient funds");
            assert_eq!(e.description.as_deref(), Some("d"));
        },
        _ => panic!("expected the error envelope"),
    }
}

#[test]
fn failure_status_with_unreadable_body_is_a_decode_error() {
    let body = b"oops".to_vec();
    let result = extract_order(500, body.clone());
    match result {
        Err(ExtractError::Deserialization { bytes, .. }) => assert_eq!(bytes, body),
        _ => panic!("expected a deserialization error"),
    }
}

#[test]
fn extract_error_reads_the_envelope_directly() {
    let body = b"{\"error\":{\"code\":401,\"message\":\"unauthorized\"}}".to_vec();
    let envelope = extract_error(body).unwrap();
    assert_eq!(envelope.error.code, 401);
    assert_eq!(envelope.error.message.as_str(), "unauthorized");
    assert_eq!(envelope.error.description, None);
}

fn order_json() -> Vec<u8> {
    "{\"id\":828680665,\"clientOrderId\":\"f4307c6e\",\"symbol\":\"ETHBTC\",\"side\":\"sell\",\"status\":\"partiallyFilled\",\"type\":\"limit\",\"timeInForce\":\"GTC\",\"quantity\":\"13.942\",\"price\":\"0.011384\",\"cumQuantity\":\"5.240\",\"createdAt\":\"2017-01-16T14:18:47.321Z\",\"postOnly\":false}"
    .as_bytes()
    .to_vec()
}

#[test]
fn order_decodes_with_optional_fields_absent() {
    let order = extract_order(200, order_json()).unwrap();
    assert_eq!(order.id, 828680665);
    assert_eq!(order.client_order_id.as_str(), "f4307c6e");
    assert_eq!(order.price.as_deref(), Some("0.011384"));
    assert_eq!(order.updated_at, None);
    assert_eq!(order.expire_time, None);
    assert!(!order.post_only);
}

#[test]
fn orders_decode_as_a_list() {
    let mut body = b"[".to_vec();
    body.extend_from_slice(&order_json());
    body.extend_from_slice(b"]");
    let orders = extract_orders(200, body).unwrap();
    assert_eq!(orders.len(), 1);
    assert_eq!(orders[0].symbol.as_str(), "ETHBTC");
}

#[test]
fn order_with_wrong_field_kind_is_a_decode_error() {
    // The id must be a number; a string is a schema mismatch.
    let body = b"{\"id\":\"828680665\"}".to_vec();
    assert!(matches!(
        extract_order(200, body),
        Err(ExtractError::Deserialization { .. })
    ));
}

#[test]
fn symbols_decode() {
    let body = "[{\"id\":\"ETHBTC\",\"baseCurrency\":\"ETH\",\"quoteCurrency\":\"BTC\",\"quantityIncrement\":\"0.001\",\"tickSize\":\"0.000001\",\"takeLiquidityRate\":\"0.001\",\"provideLiquidityRate\":\"-0.0001\",\"feeCurrency\":\"BTC\"}]"
    .as_bytes()
    .to_vec();
    let symbols = extract_symbols(200, body).unwrap();
    assert_eq!(symbols.len(), 1);
    assert_eq!(symbols[0].base_currency.as_str(), "ETH");
}

#[test]
fn currencies_decode() {
    let body = "[{\"id\":\"BTC\",\"fullName\":\"Bitcoin\",\"payinEnabled\":true,\"payinPaymentId\":false,\"payinConfirmations\":2,\"payoutEnabled\":true,\"payoutIsPaymentId\":false,\"transferEnabled\":true,\"delisted\":false,\"payoutFee\":\"0.00958\",\"precisionPayout\":10,\"precisionTransfer\":10}]"
    .as_bytes()
    .to_vec();
    let currencies = extract_currencies(200, body).unwrap();
    assert_eq!(currencies.len(), 1);
    assert_eq!(currencies[0].full_name.as_str(), "Bitcoin");
    assert_eq!(currencies[0].payout_fee.as_deref(), Some("0.00958"));
    assert_eq!(currencies[0].payout_minimal_amount, None);
}

#[test]
fn currency_confirmations_must_fit_in_range() {
    let body = "[{\"id\":\"BTC\",\"fullName\":\"Bitcoin\",\"payinEnabled\":true,\"payinPaymentId\":false,\"payinConfirmations\":4294967296,\"payoutEnabled\":true,\"payoutIsPaymentId\":false,\"transferEnabled\":true,\"delisted\":false,\"precisionPayout\":10,\"precisionTransfer\":10}]"
    .as_bytes()
    .to_vec();
    assert!(matches!(
        extract_currencies(200, body),
        Err(ExtractError::Deserialization { .. })
    ));
}

fn orderbook_json() -> Vec<u8> {
    "{\"BTCUSD\":{\"symbol\":\"BTCUSD\",\"ask\":[{\"price\":\"9779.68\",\"size\":\"2.497\"}],\"bid\":[{\"price\":\"9779.67\",\"size\":\"0.03\"}],\"timestamp\":\"2020-02-11T11:18:03.857Z\"}}"
    .as_bytes()
    .to_vec()
}

#[test]
fn orderbook_decodes() {
    let book = extract_orderbook(200, orderbook_json()).unwrap();
    assert_eq!(book.len(), 1);
    assert_eq!(book[0].0.as_str(), "BTCUSD");
    assert_eq!(book[0].1.ask[0].price.as_str(), "9779.68");
    assert_eq!(book[0].1.bid[0].size.as_str(), "0.03");
}

#[test]
fn orderbook_page_picks_the_side() {
    let book = extract_orderbook(200, orderbook_json()).unwrap();
    let symbol = Symbol::new(Coin::BTC, Coin::USDT);
    let page = OrderBookPage::new(symbol, Side::Buy, &book).unwrap();
    assert_eq!(page.prices.len(), 1);
    assert_eq!(page.prices[0].price.as_str(), "9779.67");
    let symbol = Symbol::new(Coin::BTC, Coin::USDT);
    let page = OrderBookPage::new(symbol, Side::Sell, &book).unwrap();
    assert_eq!(page.prices[0].price.as_str(), "9779.68");
    let missing = OrderBookPage::new(Symbol::new(Coin::TON, Coin::BTC), Side::Buy, &book);
    assert!(missing.is_none());
}

#[test]
fn orderbook_exact_symbol_decodes() {
    let body = "{\"ask\":[{\"price\":\"9779.68\",\"size\":\"2.497\"}],\"bid\":[{\"price\":\"9779.67\",\"size\":\"0.03\"}],\"timestamp\":\"2020-02-11T11:18:03.857Z\",\"askAveragePrice\":\"9779.68\",\"bidAveragePrice\":\"9779.67\"}"
    .as_bytes()
    .to_vec();
    let page = extract_orderbook_exact_symbol(200, body).unwrap();
    assert_eq!(page.ask_average_price.as_str(), "9779.68");
    assert_eq!(page.bid_average_price.as_str(), "9779.67");
}

#[test]
fn trading_commission_decodes() {
    let body = b"{\"takeLiquidityRate\":\"0.001\",\"provideLiquidityRate\":\"-0.0001\"}".to_vec();
    let commission = extract_trading_commission(200, body).unwrap();
    assert_eq!(commission.take_liquidity_rate.as_str(), "0.001");
    assert_eq!(commission.provide_liquidity_rate.as_str(), "-0.0001");
}

#[test]
fn null_and_absent_optionals_decode_alike() {
    let body = b"{\"error\":{\"code\":1,\"message\":\"m\",\"description\":null}}".to_vec();
    let envelope = extract_error(body).unwrap();
    assert_eq!(envelope.error.description, None);
}
