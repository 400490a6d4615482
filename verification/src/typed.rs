//! Typed order commands and typed views over wire data.
//!
//! Numeric amounts are decimal strings, validated at construction, because
//! the wire protocol requires string-typed decimals; converting a machine
//! float into such a string is the caller's concern and stays outside this
//! crate.

use vstd::prelude::*;
use vstd::string::StringExecFns;
use crate::base::Side;
use crate::base::Type;
use crate::base::side_wire;
use crate::base::order_type_wire;
use crate::coin;
use crate::coin::legacy_coin_wire;
use crate::error::RequestBuildError;
use crate::models;
use crate::text::is_decimal_str;
use crate::text::is_decimal_string;

verus! {

/// Placeholder for the typed view of a reported order; no endpoint carries
/// it yet.
pub struct Order {}

/// A market order to create: symbol, side and a decimal quantity.
pub struct CreateMarketOrder {
    pub symbol: coin::Symbol,
    pub side: Side,
    pub quantity: String,
}

impl CreateMarketOrder {
    /// Builds the command, rejecting a quantity that is not a wire decimal
    /// string.
    pub fn new(symbol: coin::Symbol, side: Side, quantity: String) -> (r: Result<
        CreateMarketOrder,
        RequestBuildError,
    >)
        ensures
            r is Ok <==> is_decimal_str(quantity@),
            r matches Ok(o) ==> o.symbol == symbol && o.side == side && o.quantity == quantity,
            r matches Err(e) ==> e == RequestBuildError::InvalidBodyField,
    {
        if is_decimal_string(quantity.as_str()) {
            Ok(CreateMarketOrder { symbol, side, quantity })
        } else {
            Err(RequestBuildError::InvalidBodyField)
        }
    }

    /// The wire body model of this command, under the historical code
    /// table.
    pub fn to_model(self) -> (r: models::CreateMarketOrder)
        ensures
            r.symbol@ == legacy_coin_wire(&self.symbol.left) + legacy_coin_wire(
                &self.symbol.right,
            ),
            r.side@ == side_wire(self.side),
            r.quantity == self.quantity,
            r.order_type@ == order_type_wire(Type::Market),
    {
        let symbol = self.symbol.to_string();
        let side = String::from_str(self.side.to_string());
        let order_type = String::from_str(Type::Market.to_string());
        models::CreateMarketOrder { symbol, side, quantity: self.quantity, order_type }
    }
}

/// A limit order to create: symbol, side, and decimal quantity and price.
pub struct CreateLimitOrder {
    pub symbol: coin::Symbol,
    pub side: Side,
    pub quantity: String,
    pub price: String,
}

impl CreateLimitOrder {
    /// Builds the command, rejecting a quantity or price that is not a wire
    /// decimal string.
    pub fn new(symbol: coin::Symbol, side: Side, quantity: String, price: String) -> (r: Result<
        CreateLimitOrder,
        RequestBuildError,
    >)
        ensures
            r is Ok <==> is_decimal_str(quantity@) && is_decimal_str(price@),
            r matches Ok(o) ==> o.symbol == symbol && o.side == side && o.quantity == quantity
                && o.price == price,
            r matches Err(e) ==> e == RequestBuildError::InvalidBodyField,
    {
        if is_decimal_string(quantity.as_str()) && is_decimal_string(price.as_str()) {
            Ok(CreateLimitOrder { symbol, side, quantity, price })
        } else {
            Err(RequestBuildError::InvalidBodyField)
        }
    }

    /// The wire body model of this command, under the historical code
    /// table.
    pub fn to_model(self) -> (r: models::CreateLimitOrder)
        ensures
            r.symbol@ == legacy_coin_wire(&self.symbol.left) + legacy_coin_wire(
                &self.symbol.right,
            ),
            r.side@ == side_wire(self.side),
            r.quantity == self.quantity,
            r.price == self.price,
    {
        let symbol = self.symbol.to_string();
        let side = String::from_str(self.side.to_string());
        models::CreateLimitOrder { symbol, side, quantity: self.quantity, price: self.price }
    }
}

/// The views of one side's price levels.
pub open spec fn price_views(prices: Seq<models::Price>) -> Seq<(Seq<char>, Seq<char>)> {
    prices.map_values(|p: models::Price| (p.price@, p.size@))
}

fn clone_prices(prices: &Vec<models::Price>) -> (r: Vec<models::Price>)
    ensures
        price_views(r@) == price_views(prices@),
{
    let mut out: Vec<models::Price> = Vec::new();
    let n = prices.len();
    let mut i: usize = 0;
    while i < n
        invariant
            i <= n,
            n == prices@.len(),
            out@.len() == i,
            price_views(out@) =~= price_views(prices@).take(i as int),
        decreases n - i,
    {
        let p = &prices[i];
        out.push(models::Price { price: p.price.clone(), size: p.size.clone() });
        proof {
            assert(price_views(prices@).take(i + 1).drop_last() =~= price_views(prices@).take(
                i as int,
            ));
            assert(price_views(out@) =~= price_views(prices@).take(i + 1));
        }
        i += 1;
    }
    proof {
        assert(price_views(prices@).take(n as int) =~= price_views(prices@));
    }
    out
}

/// One side of one market's order book, picked out of a full order book.
pub struct OrderBookPage {
    pub symbol: coin::Symbol,
    pub prices: Vec<models::Price>,
}

impl OrderBookPage {
    /// Looks the symbol's page up by its wire string under the historical
    /// code table and keeps the side the caller trades against: the bids
    /// for a buy, the asks for a sell. Returns nothing when the order book
    /// has no page for the symbol.
    pub fn new(
        symbol: coin::Symbol,
        side: Side,
        orderbook: &Vec<(String, models::OrderBookPage)>,
    ) -> (r: Option<OrderBookPage>)
        ensures
            r is Some <==> (exists|i: int|
                0 <= i < orderbook@.len() && (#[trigger] orderbook@[i]).0@ == legacy_coin_wire(
                    &symbol.left,
                ) + legacy_coin_wire(&symbol.right)),
            r matches Some(page) ==> ({
                let key = legacy_coin_wire(&symbol.left) + legacy_coin_wire(&symbol.right);
                &&& page.symbol == symbol
                &&& exists|i: int|
                    {
                        &&& 0 <= i < orderbook@.len()
                        &&& (#[trigger] orderbook@[i]).0@ == key
                        &&& (forall|j: int| 0 <= j < i ==> orderbook@[j].0@ != key)
                        &&& price_views(page.prices@) == price_views(
                            match side {
                                Side::Buy => orderbook@[i].1.bid@,
                                Side::Sell => orderbook@[i].1.ask@,
                            },
                        )
                    }
            }),
    {
        let key = symbol.to_wire(&coin::CoinTable::legacy());
        let n = orderbook.len();
        let mut i: usize = 0;
        while i < n
            invariant
                i <= n,
                n == orderbook@.len(),
                forall|j: int|
                    0 <= j < i ==> (#[trigger] orderbook@[j]).0@ != legacy_coin_wire(&symbol.left)
                        + legacy_coin_wire(&symbol.right),
                key@ == legacy_coin_wire(&symbol.left) + legacy_coin_wire(&symbol.right),
            decreases n - i,
        {
            let entry = &orderbook[i];
            if crate::text::str_eq(entry.0.as_str(), key.as_str()) {
                let prices = match side {
                    Side::Buy => clone_prices(&entry.1.bid),
                    Side::Sell => clone_prices(&entry.1.ask),
                };
                return Some(OrderBookPage { symbol, prices });
            }
            i += 1;
        }
        None
    }
}

} // verus!
