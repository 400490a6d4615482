//! The domain <-> wire mapping: fixed strings, table-driven coin codes, and
//! the round trips.

use btc_client::base::Side;
use btc_client::base::Type;
use btc_client::coin::Coin;
use btc_client::coin::CoinTable;
use btc_client::coin::Symbol;
use btc_client::time_in_force::TimeInForce;

#[test]
fn side_wire_strings() {
    assert_eq!(Side::Sell.to_string(), "sell");
    assert_eq!(Side::Buy.to_string(), "buy");
}

#[test]
fn side_round_trip() {
    for wire in ["sell", "buy"] {
        let side = Side::from_wire(wire).unwrap();
        assert_eq!(side.to_string(), wire);
    }
    assert!(Side::from_wire("hold").is_none());
}

#[test]
fn order_type_wire_strings() {
    assert_eq!(Type::Limit.to_string(), "limit");
    assert_eq!(Type::Market.to_string(), "market");
    assert_eq!(Type::StopLimit.to_string(), "stopLimit");
    assert_eq!(Type::StopMarket.to_string(), "stopMarket");
}

#[test]
fn order_type_round_trip() {
    for wire in ["limit", "market", "stopLimit", "stopMarket"] {
        let t = Type::from_wire(wire).unwrap();
        assert_eq!(t.to_string(), wire);
    }
    assert!(Type::from_wire("Limit").is_none());
}

#[test]
fn time_in_force_round_trip() {
    for wire in ["FTC", "IOC", "FOK", "Day", "GTD"] {
        let t = TimeInForce::from_wire(wire).unwrap();
        assert_eq!(t.to_string(), wire);
    }
    assert!(TimeInForce::from_wire("GTC").is_none());
}

#[test]
fn coin_legacy_spelling() {
    assert_eq!(Coin::TON.to_string(), "TON");
    assert_eq!(Coin::BTC.to_string(), "BTC");
    assert_eq!(Coin::USDT.to_string(), "USD");
    assert_eq!(Coin::Unknown("DOGE".to_string()).to_string(), "DOGE");
}

#[test]
fn coin_current_spelling() {
    let table = CoinTable::current();
    assert_eq!(table.to_wire(&Coin::USDT), "USDT");
    assert_eq!(table.to_wire(&Coin::BTC), "BTC");
}

#[test]
fn coin_round_trip_known_codes() {
    let legacy = CoinTable::legacy();
    for code in ["TON", "BTC", "USD"] {
        assert_eq!(legacy.to_wire(&legacy.from_wire(code)), code);
    }
    let current = CoinTable::current();
    for code in ["TON", "BTC", "USDT"] {
        assert_eq!(current.to_wire(&current.from_wire(code)), code);
    }
}

#[test]
fn coin_round_trip_unknown_codes() {
    let legacy = CoinTable::legacy();
    for code in ["DOGE", "USDT", ""] {
        // "USDT" is unknown to the legacy table, whose stable coin is "USD".
        assert_eq!(legacy.to_wire(&legacy.from_wire(code)), code);
    }
    assert!(matches!(legacy.from_wire("DOGE"), Coin::Unknown(c) if c == "DOGE"));
}

#[test]
fn coin_from_wire_picks_known_variants() {
    assert!(matches!(Coin::from_wire("TON"), Coin::TON));
    assert!(matches!(Coin::from_wire("BTC"), Coin::BTC));
    assert!(matches!(Coin::from_wire("USD"), Coin::USDT));
}

#[test]
fn symbol_wire_is_concatenation() {
    let pair = Symbol::new(Coin::BTC, Coin::USDT);
    assert_eq!(
        pair.to_string(),
        format!("{}{}", Coin::BTC.to_string(), Coin::USDT.to_string())
    );
    let table = CoinTable::current();
    let pair = Symbol::new(Coin::BTC, Coin::USDT);
    assert_eq!(pair.to_wire(&table), "BTCUSDT");
}

#[test]
fn symbol_reversed_swaps_without_mutating() {
    let pair = Symbol::new(Coin::TON, Coin::BTC);
    let reversed = pair.clone().reversed();
    assert_eq!(reversed.to_string(), "BTCTON");
    assert_eq!(pair.to_string(), "TONBTC");
}
