//! Order sides and order types, with their fixed wire strings.
//!
//! Each closed enum maps bidirectionally onto one fixed wire string per
//! variant; the round trip through the wire form is proved below.

use vstd::prelude::*;
use crate::text::str_eq;

verus! {

/// Which way a trade goes.
#[derive(Clone, Copy, Debug)]
pub enum Side {
    Sell,
    Buy,
}

/// The wire string of a side.
pub open spec fn side_wire(s: Side) -> Seq<char> {
    match s {
        Side::Sell => "sell"@,
        Side::Buy => "buy"@,
    }
}

impl Side {
    /// The fixed wire string of this side.
    pub fn to_string(self) -> (r: &'static str)
        ensures
            r@ == side_wire(self),
    {
        match self {
            Side::Sell => "sell",
            Side::Buy => "buy",
        }
    }

    /// The side written by a wire string, if any.
    pub fn from_wire(s: &str) -> (r: Option<Side>)
        ensures
            r matches Some(side) ==> side_wire(side) == s@,
            r is None ==> (forall|side: Side| side_wire(side) != s@),
    {
        if str_eq(s, "sell") {
            Some(Side::Sell)
        } else if str_eq(s, "buy") {
            Some(Side::Buy)
        } else {
            proof {
                assert forall|side: Side| side_wire(side) != s@ by {
                    match side {
                        Side::Sell => assert(side_wire(side) == "sell"@),
                        Side::Buy => assert(side_wire(side) == "buy"@),
                    }
                }
            }
            None
        }
    }
}

/// Two distinct sides never share a wire string, so a side survives the
/// round trip through its wire form.
pub proof fn lemma_side_wire_injective(a: Side, b: Side)
    requires
        side_wire(a) == side_wire(b),
    ensures
        a == b,
{
    reveal_strlit("sell");
    reveal_strlit("buy");
    assert(side_wire(Side::Sell).len() == 4);
    assert(side_wire(Side::Buy).len() == 3);
    match (a, b) {
        (Side::Sell, Side::Sell) => {},
        (Side::Buy, Side::Buy) => {},
        _ => {
            assert(side_wire(a).len() != side_wire(b).len());
        },
    }
}

/// How an order executes.
#[derive(Clone, Copy, Debug)]
pub enum Type {
    Limit,
    Market,
    StopLimit,
    StopMarket,
}

/// The wire string of an order type.
pub open spec fn order_type_wire(t: Type) -> Seq<char> {
    match t {
        Type::Limit => "limit"@,
        Type::Market => "market"@,
        Type::StopLimit => "stopLimit"@,
        Type::StopMarket => "stopMarket"@,
    }
}

impl Type {
    /// The fixed wire string of this order type.
    pub fn to_string(self) -> (r: &'static str)
        ensures
            r@ == order_type_wire(self),
    {
        match self {
            Type::Limit => "limit",
            Type::Market => "market",
            Type::StopLimit => "stopLimit",
            Type::StopMarket => "stopMarket",
        }
    }

    /// The order type written by a wire string, if any.
    pub fn from_wire(s: &str) -> (r: Option<Type>)
        ensures
            r matches Some(t) ==> order_type_wire(t) == s@,
            r is None ==> (forall|t: Type| order_type_wire(t) != s@),
    {
        if str_eq(s, "limit") {
            Some(Type::Limit)
        } else if str_eq(s, "market") {
            Some(Type::Market)
        } else if str_eq(s, "stopLimit") {
            Some(Type::StopLimit)
        } else if str_eq(s, "stopMarket") {
            Some(Type::StopMarket)
        } else {
            proof {
                assert forall|t: Type| order_type_wire(t) != s@ by {
                    match t {
                        Type::Limit => assert(order_type_wire(t) == "limit"@),
                        Type::Market => assert(order_type_wire(t) == "market"@),
                        Type::StopLimit => assert(order_type_wire(t) == "stopLimit"@),
                        Type::StopMarket => assert(order_type_wire(t) == "stopMarket"@),
                    }
                }
            }
            None
        }
    }
}

/// Two distinct order types never share a wire string, so an order type
/// survives the round trip through its wire form.
pub proof fn lemma_order_type_wire_injective(a: Type, b: Type)
    requires
        order_type_wire(a) == order_type_wire(b),
    ensures
        a == b,
{
    reveal_strlit("limit");
    reveal_strlit("market");
    reveal_strlit("stopLimit");
    reveal_strlit("stopMarket");
    assert(order_type_wire(Type::Limit).len() == 5);
    assert(order_type_wire(Type::Market).len() == 6);
    assert(order_type_wire(Type::StopLimit).len() == 9);
    assert(order_type_wire(Type::StopMarket).len() == 10);
    if order_type_wire(a).len() != order_type_wire(b).len() {
        assert(order_type_wire(a) != order_type_wire(b));
    } else {
        match (a, b) {
            (Type::Limit, Type::Limit) => {},
            (Type::Market, Type::Market) => {},
            (Type::StopLimit, Type::StopLimit) => {},
            (Type::StopMarket, Type::StopMarket) => {},
            _ => {
                assert(order_type_wire(a).len() != order_type_wire(b).len());
            },
        }
    }
}

} // verus!
