//! The wire data model: the shapes the exchange sends and receives, with
//! string-typed decimals throughout, and the serialization of order bodies.
//!
//! Bodies are serialized by this module, character by character, so the
//! bytes that are signed are provably the bytes that are transmitted. A
//! field value that JSON could not carry verbatim is a build-time error,
//! never silently escaped into a different byte sequence.

use vstd::prelude::*;
use vstd::string::StringExecFns;
use crate::request::comma_joined;
use crate::text::is_json_plain_string;
use crate::text::json_plain;
use crate::error::RequestBuildError;

verus! {

/// A JSON string literal: the value between quotes, which must be plain.
pub open spec fn json_string_value(s: Seq<char>) -> Seq<char> {
    seq!['"'] + s + seq!['"']
}

/// One `"key":value` member of a JSON object; `value_json` is already in
/// JSON form.
pub open spec fn json_member(key: Seq<char>, value_json: Seq<char>) -> Seq<char> {
    json_string_value(key) + seq![':'] + value_json
}

/// A JSON object from its members, comma-joined between braces.
pub open spec fn json_object(members: Seq<Seq<char>>) -> Seq<char> {
    seq!['{'] + comma_joined(members) + seq!['}']
}

/// A JSON boolean literal.
pub open spec fn json_bool(b: bool) -> Seq<char> {
    if b {
        "true"@
    } else {
        "false"@
    }
}

/// The views of a list of built member strings.
pub open spec fn member_views(members: Seq<String>) -> Seq<Seq<char>> {
    members.map_values(|m: String| m@)
}

fn string_member(key: &str, value: &str) -> (r: String)
    ensures
        r@ == json_member(key@, json_string_value(value@)),
{
    let mut m = String::from_str("\"");
    m.append(key);
    m.append("\":\"");
    m.append(value);
    m.append("\"");
    proof {
        reveal_strlit("\"");
        reveal_strlit("\":\"");
        assert(m@ =~= json_member(key@, json_string_value(value@)));
    }
    m
}

fn bool_member(key: &str, value: bool) -> (r: String)
    ensures
        r@ == json_member(key@, json_bool(value)),
{
    let mut m = String::from_str("\"");
    m.append(key);
    m.append("\":");
    if value {
        m.append("true");
    } else {
        m.append("false");
    }
    proof {
        reveal_strlit("\"");
        reveal_strlit("\":");
        assert(m@ =~= json_member(key@, json_bool(value)));
    }
    m
}

fn join_object(members: &Vec<String>) -> (r: String)
    ensures
        r@ == json_object(member_views(members@)),
{
    let mut joined = String::from_str("{");
    proof {
        reveal_strlit("{");
        assert(member_views(members@).take(0) =~= Seq::<Seq<char>>::empty());
        assert(joined@ =~= seq!['{'] + comma_joined(member_views(members@).take(0)));
    }
    let n = members.len();
    let mut i: usize = 0;
    while i < n
        invariant
            i <= n,
            n == members@.len(),
            joined@ == seq!['{'] + comma_joined(member_views(members@).take(i as int)),
        decreases n - i,
    {
        if i > 0 {
            joined.append(",");
        }
        joined.append(members[i].as_str());
        proof {
            let views = member_views(members@);
            assert(views.take(i + 1).drop_last() =~= views.take(i as int));
            assert(views.take(i + 1).last() == members@[i as int]@);
        }
        i += 1;
    }
    joined.append("}");
    proof {
        reveal_strlit("}");
        assert(member_views(members@).take(n as int) =~= member_views(members@));
        assert(joined@ =~= json_object(member_views(members@)));
    }
    joined
}

/// One currency line of an account or trading balance.
#[derive(Clone, Debug)]
pub struct AccountCurrency {
    pub currency: String,
    pub available: String,
    pub reserved: String,
}

/// A balance: one line per currency.
pub type Balance = Vec<AccountCurrency>;

/// One currency as the public currency endpoint describes it.
#[derive(Clone, Debug)]
pub struct PublicCurrency {
    pub id: String,
    pub full_name: String,
    pub payin_enabled: bool,
    pub payin_payment_id: bool,
    pub payin_confirmations: u32,
    pub payout_enabled: bool,
    pub payout_is_payment_id: bool,
    pub transfer_enabled: bool,
    pub delisted: bool,
    pub payout_fee: Option<String>,
    pub payout_minimal_amount: Option<String>,
    pub precision_payout: u32,
    pub precision_transfer: u32,
}

/// One order as the exchange reports it.
#[derive(Clone, Debug)]
pub struct Order {
    pub id: u64,
    pub client_order_id: String,
    pub symbol: String,
    pub side: String,
    pub status: String,
    pub order_type: String,
    pub time_in_force: String,
    pub quantity: String,
    pub price: Option<String>,
    pub cim_quantity: String,
    pub created_at: String,
    pub updated_at: Option<String>,
    pub post_only: bool,
    pub expire_time: Option<String>,
}

/// Orders as the exchange lists them.
pub type Orders = Vec<Order>;

/// The generic order-creation body: optional fields appear in the
/// serialized body only when supplied.
#[derive(Clone, Debug)]
pub struct CreateOrder {
    pub client_order_id: Option<String>,
    pub symbol: String,
    pub side: String,
    pub order_type: Option<String>,
    pub time_in_force: Option<String>,
    pub quantity: String,
    pub price: Option<String>,
    pub stop_price: Option<String>,
    pub expire_time: Option<String>,
    pub strict_validate: String,
    pub post_only: bool,
}

/// The market-order creation body.
#[derive(Clone, Debug)]
pub struct CreateMarketOrder {
    pub symbol: String,
    pub side: String,
    pub quantity: String,
    pub order_type: String,
}

/// The limit-order creation body.
#[derive(Clone, Debug)]
pub struct CreateLimitOrder {
    pub symbol: String,
    pub side: String,
    pub quantity: String,
    pub price: String,
}

/// One market as the public symbol endpoint describes it.
#[derive(Clone, Debug)]
pub struct Symbol {
    pub id: String,
    pub base_currency: String,
    pub quote_currency: String,
    pub quantity_increment: String,
    pub tick_size: String,
    pub take_liquidity_rate: String,
    pub provide_liquidity_rate: String,
    pub fee_currency: String,
}

/// Markets as the public symbol endpoint lists them.
pub type Symbols = Vec<Symbol>;

/// One price level of an order book side.
#[derive(Clone, Debug)]
pub struct Price {
    pub price: String,
    pub size: String,
}

/// The price levels of one side.
pub type Prices = Vec<Price>;

/// One market's page of the order book.
#[derive(Clone, Debug)]
pub struct OrderBookPage {
    pub symbol: String,
    pub ask: Prices,
    pub bid: Prices,
    pub timestamp: String,
}

/// The order book: pages keyed by market wire string, one entry per key
/// of the response object.
pub type OrderBook = Vec<(String, OrderBookPage)>;

/// The order book of one market, with average prices.
#[derive(Clone, Debug)]
pub struct OrderbookExactSymbol {
    pub ask: Prices,
    pub bid: Prices,
    pub timestamp: String,
    pub ask_average_price: String,
    pub bid_average_price: String,
}

/// The trading commission of one market.
#[derive(Clone, Debug)]
pub struct TradingCommission {
    pub take_liquidity_rate: String,
    pub provide_liquidity_rate: String,
}

/// The serialized form of a market-order body: the four members in wire
/// order.
pub open spec fn market_order_json(o: &CreateMarketOrder) -> Seq<char> {
    json_object(
        seq![
            json_member("symbol"@, json_string_value(o.symbol@)),
            json_member("side"@, json_string_value(o.side@)),
            json_member("quantity"@, json_string_value(o.quantity@)),
            json_member("type"@, json_string_value(o.order_type@)),
        ],
    )
}

impl CreateMarketOrder {
    /// Writes the body this order signs and transmits; rejects a field JSON
    /// could not carry verbatim.
    pub fn to_json(&self) -> (r: Result<String, RequestBuildError>)
        ensures
            r is Ok <==> json_plain(self.symbol@) && json_plain(self.side@) && json_plain(
                self.quantity@,
            ) && json_plain(self.order_type@),
            r matches Ok(j) ==> j@ == market_order_json(self),
            r matches Err(e) ==> e == RequestBuildError::InvalidBodyField,
    {
        if !is_json_plain_string(self.symbol.as_str()) || !is_json_plain_string(self.side.as_str())
            || !is_json_plain_string(self.quantity.as_str()) || !is_json_plain_string(
            self.order_type.as_str(),
        ) {
            return Err(RequestBuildError::InvalidBodyField);
        }
        let mut members: Vec<String> = Vec::new();
        members.push(string_member("symbol", self.symbol.as_str()));
        members.push(string_member("side", self.side.as_str()));
        members.push(string_member("quantity", self.quantity.as_str()));
        members.push(string_member("type", self.order_type.as_str()));
        let r = join_object(&members);
        proof {
            assert(member_views(members@) =~= seq![
                json_member("symbol"@, json_string_value(self.symbol@)),
                json_member("side"@, json_string_value(self.side@)),
                json_member("quantity"@, json_string_value(self.quantity@)),
                json_member("type"@, json_string_value(self.order_type@)),
            ]);
        }
        Ok(r)
    }
}

/// The serialized form of a limit-order body: the four members in wire
/// order.
pub open spec fn limit_order_json(o: &CreateLimitOrder) -> Seq<char> {
    json_object(
        seq![
            json_member("symbol"@, json_string_value(o.symbol@)),
            json_member("side"@, json_string_value(o.side@)),
            json_member("quantity"@, json_string_value(o.quantity@)),
            json_member("price"@, json_string_value(o.price@)),
        ],
    )
}

impl CreateLimitOrder {
    /// Writes the body this order signs and transmits; rejects a field JSON
    /// could not carry verbatim.
    pub fn to_json(&self) -> (r: Result<String, RequestBuildError>)
        ensures
            r is Ok <==> json_plain(self.symbol@) && json_plain(self.side@) && json_plain(
                self.quantity@,
            ) && json_plain(self.price@),
            r matches Ok(j) ==> j@ == limit_order_json(self),
            r matches Err(e) ==> e == RequestBuildError::InvalidBodyField,
    {
        if !is_json_plain_string(self.symbol.as_str()) || !is_json_plain_string(self.side.as_str())
            || !is_json_plain_string(self.quantity.as_str()) || !is_json_plain_string(
            self.price.as_str(),
        ) {
            return Err(RequestBuildError::InvalidBodyField);
        }
        let mut members: Vec<String> = Vec::new();
        members.push(string_member("symbol", self.symbol.as_str()));
        members.push(string_member("side", self.side.as_str()));
        members.push(string_member("quantity", self.quantity.as_str()));
        members.push(string_member("price", self.price.as_str()));
        let r = join_object(&members);
        proof {
            assert(member_views(members@) =~= seq![
                json_member("symbol"@, json_string_value(self.symbol@)),
                json_member("side"@, json_string_value(self.side@)),
                json_member("quantity"@, json_string_value(self.quantity@)),
                json_member("price"@, json_string_value(self.price@)),
            ]);
        }
        Ok(r)
    }
}

/// The members of a generic order body, in wire order, the optional ones
/// present exactly when supplied.
pub open spec fn create_order_members(o: &CreateOrder) -> Seq<Seq<char>> {
    let ms: Seq<Seq<char>> = Seq::empty();
    let ms = match o.client_order_id {
        Some(v) => ms.push(json_member("clientOrderId"@, json_string_value(v@))),
        None => ms,
    };
    let ms = ms.push(json_member("symbol"@, json_string_value(o.symbol@)));
    let ms = ms.push(json_member("side"@, json_string_value(o.side@)));
    let ms = match o.order_type {
        Some(v) => ms.push(json_member("type"@, json_string_value(v@))),
        None => ms,
    };
    let ms = match o.time_in_force {
        Some(v) => ms.push(json_member("timeInForce"@, json_string_value(v@))),
        None => ms,
    };
    let ms = ms.push(json_member("quantity"@, json_string_value(o.quantity@)));
    let ms = match o.price {
        Some(v) => ms.push(json_member("price"@, json_string_value(v@))),
        None => ms,
    };
    let ms = match o.stop_price {
        Some(v) => ms.push(json_member("stopPrice"@, json_string_value(v@))),
        None => ms,
    };
    let ms = match o.expire_time {
        Some(v) => ms.push(json_member("expireTime"@, json_string_value(v@))),
        None => ms,
    };
    let ms = ms.push(json_member("strictValidate"@, json_string_value(o.strict_validate@)));
    let ms = ms.push(json_member("postOnly"@, json_bool(o.post_only)));
    ms
}

/// A supplied optional field that JSON can carry verbatim; an absent field
/// is always fine.
pub open spec fn opt_json_plain(v: &Option<String>) -> bool {
    match v {
        Some(s) => json_plain(s@),
        None => true,
    }
}

fn opt_json_plain_check(v: &Option<String>) -> (r: bool)
    ensures
        r == opt_json_plain(v),
{
    match v {
        Some(s) => is_json_plain_string(s.as_str()),
        None => true,
    }
}

/// The serialized form of a generic order body.
pub open spec fn create_order_json(o: &CreateOrder) -> Seq<char> {
    json_object(create_order_members(o))
}

impl CreateOrder {
    /// Writes the body this order signs and transmits: optional members
    /// appear only when supplied; rejects a field JSON could not carry
    /// verbatim.
    pub fn to_json(&self) -> (r: Result<String, RequestBuildError>)
        ensures
            r is Ok <==> {
                &&& opt_json_plain(&self.client_order_id)
                &&& json_plain(self.symbol@)
                &&& json_plain(self.side@)
                &&& opt_json_plain(&self.order_type)
                &&& opt_json_plain(&self.time_in_force)
                &&& json_plain(self.quantity@)
                &&& opt_json_plain(&self.price)
                &&& opt_json_plain(&self.stop_price)
                &&& opt_json_plain(&self.expire_time)
                &&& json_plain(self.strict_validate@)
            },
            r matches Ok(j) ==> j@ == create_order_json(self),
            r matches Err(e) ==> e == RequestBuildError::InvalidBodyField,
    {
        if !opt_json_plain_check(&self.client_order_id) || !is_json_plain_string(
            self.symbol.as_str(),
        ) || !is_json_plain_string(self.side.as_str()) || !opt_json_plain_check(&self.order_type)
            || !opt_json_plain_check(&self.time_in_force) || !is_json_plain_string(
            self.quantity.as_str(),
        ) || !opt_json_plain_check(&self.price) || !opt_json_plain_check(&self.stop_price)
            || !opt_json_plain_check(&self.expire_time) || !is_json_plain_string(
            self.strict_validate.as_str(),
        ) {
            return Err(RequestBuildError::InvalidBodyField);
        }
        let mut members: Vec<String> = Vec::new();
        match &self.client_order_id {
            Some(v) => members.push(string_member("clientOrderId", v.as_str())),
            None => {},
        }
        members.push(string_member("symbol", self.symbol.as_str()));
        members.push(string_member("side", self.side.as_str()));
        match &self.order_type {
            Some(v) => members.push(string_member("type", v.as_str())),
            None => {},
        }
        match &self.time_in_force {
            Some(v) => members.push(string_member("timeInForce", v.as_str())),
            None => {},
        }
        members.push(string_member("quantity", self.quantity.as_str()));
        match &self.price {
            Some(v) => members.push(string_member("price", v.as_str())),
            None => {},
        }
        match &self.stop_price {
            Some(v) => members.push(string_member("stopPrice", v.as_str())),
            None => {},
        }
        match &self.expire_time {
            Some(v) => members.push(string_member("expireTime", v.as_str())),
            None => {},
        }
        members.push(string_member("strictValidate", self.strict_validate.as_str()));
        members.push(bool_member("postOnly", self.post_only));
        let r = join_object(&members);
        proof {
            assert(member_views(members@) =~= create_order_members(self));
        }
        Ok(r)
    }
}

} // verus!
