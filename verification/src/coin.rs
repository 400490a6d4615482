//! Currencies and trading pairs.
//!
//! The set of well-known coins is closed, with an `Unknown` escape hatch that
//! carries the original wire code unchanged. The wire spelling of a known
//! coin is not part of the enum's identity: it comes from a [`CoinTable`],
//! because the same currency is spelled differently by different generations
//! of the exchange API. Unknown codes round-trip unchanged, which keeps the
//! client forward compatible with currencies it does not yet recognize.

use vstd::prelude::*;
use vstd::string::StringExecFns;
use crate::text::str_eq;

verus! {

/// A tradable currency: a well-known code, or an opaque code the client does
/// not recognize.
#[derive(Clone, Debug)]
pub enum Coin {
    TON,
    BTC,
    USDT,
    Unknown(String),
}

/// One wire spelling per well-known coin, for one generation of the API.
#[derive(Clone, Debug)]
pub struct CoinTable {
    pub ton: String,
    pub btc: String,
    pub usdt: String,
}

/// The wire string of a coin under a given code table; unknown coins keep
/// their own code.
pub open spec fn coin_wire(t: &CoinTable, c: &Coin) -> Seq<char> {
    match c {
        Coin::TON => t.ton@,
        Coin::BTC => t.btc@,
        Coin::USDT => t.usdt@,
        Coin::Unknown(code) => code@,
    }
}

/// What `CoinTable::from_wire` returns for a given code: the first known coin
/// whose table entry equals the code, or the code itself left unchanged.
pub open spec fn coin_from_wire_spec(t: &CoinTable, code: Seq<char>, r: Coin) -> bool {
    if code == t.ton@ {
        r == Coin::TON
    } else if code == t.btc@ {
        r == Coin::BTC
    } else if code == t.usdt@ {
        r == Coin::USDT
    } else {
        r matches Coin::Unknown(own) && own@ == code
    }
}

/// A usable table spells every known coin differently from every other.
pub open spec fn coin_table_wf(t: &CoinTable) -> bool {
    t.ton@ != t.btc@ && t.ton@ != t.usdt@ && t.btc@ != t.usdt@
}

impl CoinTable {
    /// The spellings used by the historical generation of the API, where the
    /// stable coin is written `USD`.
    pub fn legacy() -> (r: CoinTable)
        ensures
            r.ton@ == "TON"@,
            r.btc@ == "BTC"@,
            r.usdt@ == "USD"@,
            coin_table_wf(&r),
    {
        let r = CoinTable {
            ton: String::from_str("TON"),
            btc: String::from_str("BTC"),
            usdt: String::from_str("USD"),
        };
        proof {
            reveal_strlit("TON");
            reveal_strlit("BTC");
            reveal_strlit("USD");
            assert("TON"@[0] == 'T' && "BTC"@[0] == 'B' && "USD"@[0] == 'U');
        }
        r
    }

    /// The spellings used by the current generation of the API, where the
    /// stable coin is written `USDT`.
    pub fn current() -> (r: CoinTable)
        ensures
            r.ton@ == "TON"@,
            r.btc@ == "BTC"@,
            r.usdt@ == "USDT"@,
            coin_table_wf(&r),
    {
        let r = CoinTable {
            ton: String::from_str("TON"),
            btc: String::from_str("BTC"),
            usdt: String::from_str("USDT"),
        };
        proof {
            reveal_strlit("TON");
            reveal_strlit("BTC");
            reveal_strlit("USDT");
            assert("TON"@[0] == 'T' && "BTC"@[0] == 'B' && "USDT"@[0] == 'U');
        }
        r
    }

    /// The wire string of `coin` under this table.
    pub fn to_wire(&self, coin: &Coin) -> (r: String)
        ensures
            r@ == coin_wire(self, coin),
    {
        match coin {
            Coin::TON => self.ton.clone(),
            Coin::BTC => self.btc.clone(),
            Coin::USDT => self.usdt.clone(),
            Coin::Unknown(code) => code.clone(),
        }
    }

    /// The coin that a wire code denotes under this table; codes the table
    /// does not list pass through unchanged.
    pub fn from_wire(&self, code: &str) -> (r: Coin)
        ensures
            coin_from_wire_spec(self, code@, r),
    {
        if str_eq(code, self.ton.as_str()) {
            Coin::TON
        } else if str_eq(code, self.btc.as_str()) {
            Coin::BTC
        } else if str_eq(code, self.usdt.as_str()) {
            Coin::USDT
        } else {
            Coin::Unknown(String::from_str(code))
        }
    }
}

/// Writing a decoded coin back to the wire gives the original code, for every
/// code: known codes map to the coin the table lists them under, and unknown
/// codes are carried unchanged.
pub proof fn lemma_coin_wire_round_trip(t: &CoinTable, code: Seq<char>, r: Coin)
    requires
        coin_from_wire_spec(t, code, r),
    ensures
        coin_wire(t, &r) == code,
{
}

/// Decoding the wire string of a known coin gives the same coin back, under
/// any well-formed table.
pub proof fn lemma_known_coin_round_trip(t: &CoinTable, c: Coin, r: Coin)
    requires
        coin_table_wf(t),
        !(c is Unknown),
        coin_from_wire_spec(t, coin_wire(t, &c), r),
    ensures
        r == c,
{
}

/// The wire string of a coin under the historical code table.
pub open spec fn legacy_coin_wire(c: &Coin) -> Seq<char> {
    match c {
        Coin::TON => "TON"@,
        Coin::BTC => "BTC"@,
        Coin::USDT => "USD"@,
        Coin::Unknown(code) => code@,
    }
}

/// What decoding a wire code under the historical code table gives.
pub open spec fn legacy_coin_from_wire_spec(code: Seq<char>, r: Coin) -> bool {
    if code == "TON"@ {
        r == Coin::TON
    } else if code == "BTC"@ {
        r == Coin::BTC
    } else if code == "USD"@ {
        r == Coin::USDT
    } else {
        r matches Coin::Unknown(own) && own@ == code
    }
}

impl Coin {
    /// The wire string of this coin under the historical code table, the one
    /// the rest of this crate uses by default.
    pub fn to_string(self) -> (r: String)
        ensures
            r@ == legacy_coin_wire(&self),
    {
        let table = CoinTable::legacy();
        table.to_wire(&self)
    }

    /// The coin a wire code denotes under the historical code table.
    pub fn from_wire(code: &str) -> (r: Coin)
        ensures
            legacy_coin_from_wire_spec(code@, r),
    {
        let table = CoinTable::legacy();
        table.from_wire(code)
    }
}

/// An ordered trading pair: `(left, right)` and `(right, left)` denote
/// different markets.
#[derive(Clone, Debug)]
pub struct Symbol {
    pub left: Coin,
    pub right: Coin,
}

/// The wire string of a pair: the two coin codes concatenated, left first,
/// with no delimiter.
pub open spec fn symbol_wire(t: &CoinTable, s: &Symbol) -> Seq<char> {
    coin_wire(t, &s.left) + coin_wire(t, &s.right)
}

impl Symbol {
    /// Pairs `left` and `right`, in that order.
    pub fn new(left: Coin, right: Coin) -> (r: Symbol)
        ensures
            r.left == left,
            r.right == right,
    {
        Symbol { left, right }
    }

    /// The opposite market: the same coins in the other order. The source
    /// pair is consumed, not mutated.
    pub fn reversed(self) -> (r: Symbol)
        ensures
            r.left == self.right,
            r.right == self.left,
    {
        Symbol { left: self.right, right: self.left }
    }

    /// The wire string of this pair under `table`.
    pub fn to_wire(&self, table: &CoinTable) -> (r: String)
        ensures
            r@ == symbol_wire(table, self),
    {
        let left = table.to_wire(&self.left);
        left.concat(table.to_wire(&self.right).as_str())
    }

    /// The wire string of this pair under the historical code table.
    pub fn to_string(self) -> (r: String)
        ensures
            r@ == legacy_coin_wire(&self.left) + legacy_coin_wire(&self.right),
    {
        let table = CoinTable::legacy();
        self.to_wire(&table)
    }
}

/// The wire string of a pair is the concatenation of its coins' wire strings,
/// and reversing the pair concatenates them in the other order.
pub proof fn lemma_symbol_composition(t: &CoinTable, a: Coin, b: Coin)
    ensures
        symbol_wire(t, &Symbol { left: a, right: b }) == coin_wire(t, &a) + coin_wire(t, &b),
        symbol_wire(t, &Symbol { left: b, right: a }) == coin_wire(t, &b) + coin_wire(t, &a),
{
}

} // verus!
