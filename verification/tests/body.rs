//! Serialized order bodies: member order, optional members, and rejected
//! field values.

use btc_client::error::RequestBuildError;
use btc_client::models::CreateOrder;
use btc_client::models::CreateMarketOrder;
use btc_client::request::get_message;
use btc_client::request::Method;

fn generic_order() -> CreateOrder {
    CreateOrder {
        client_order_id: None,
        symbol: "BTCUSD".to_string(),
        side: "buy".to_string(),
        order_type: Some("limit".to_string()),
        time_in_force: None,
        quantity: "1".to_string(),
        price: Some("2".to_string()),
        stop_price: None,
        expire_time: None,
        strict_validate: "false".to_string(),
        post_only: true,
    }
}

#[test]
fn generic_order_serializes_supplied_members_only() {
    let json = generic_order().to_json().unwrap();
    assert_eq!(
        json.as_str(),
        "{\"symbol\":\"BTCUSD\",\"side\":\"buy\",\"type\":\"limit\",\"quantity\":\"1\",\"price\":\"2\",\"strictValidate\":\"false\",\"postOnly\":true}"
    );
}

#[test]
fn generic_order_with_every_member() {
    let mut order = generic_order();
    order.client_order_id = Some("id1".to_string());
    order.time_in_force = Some("GTC".to_string());
    order.stop_price = Some("3".to_string());
    order.expire_time = Some("2021-01-01T00:00:00Z".to_string());
    order.post_only = false;
    let json = order.to_json().unwrap();
    assert_eq!(
        json.as_str(),
        "{\"clientOrderId\":\"id1\",\"symbol\":\"BTCUSD\",\"side\":\"buy\",\"type\":\"limit\",\"timeInForce\":\"GTC\",\"quantity\":\"1\",\"price\":\"2\",\"stopPrice\":\"3\",\"expireTime\":\"2021-01-01T00:00:00Z\",\"strictValidate\":\"false\",\"postOnly\":false}"
    );
}

#[test]
fn a_field_json_cannot_carry_is_rejected() {
    let mut order = generic_order();
    order.symbol = "BTC\"USD".to_string();
    assert!(matches!(
        order.to_json(),
        Err(RequestBuildError::InvalidBodyField)
    ));
    let market = CreateMarketOrder {
        symbol: "BTCUSD".to_string(),
        side: "sell".to_string(),
        quantity: "1\\2".to_string(),
        order_type: "market".to_string(),
    };
    assert!(matches!(
        market.to_json(),
        Err(RequestBuildError::InvalidBodyField)
    ));
}

#[test]
fn signed_body_bytes_equal_transmitted_bytes() {
    let body = generic_order().to_json().unwrap();
    let message = get_message(Method::Post, "1610000000", "/api/2/order", body.as_str());
    assert!(message.ends_with(body.as_str()));
    let header = btc_client::authentificate(
        "pk",
        "sk",
        Method::Post,
        "1610000000",
        "/api/2/order",
        body.clone().into_bytes(),
    )
    .unwrap();
    let direct = btc_client::context::sign_with("pk", "sk", "1610000000", message.as_str());
    assert_eq!(header, direct);
}

#[test]
fn timestamp_now_is_a_decimal_string() {
    let timestamp = btc_client::request::timestamp_now();
    assert!(!timestamp.is_empty());
    assert!(timestamp.parse::<i64>().is_ok());
}
