//! Decoding of response bytes into typed values or typed errors.
//!
//! A success status must yield the expected value or a
//! [`ExtractError::Deserialization`] carrying the raw bytes and the parser
//! diagnostic; a failure status must yield the exchange's error envelope or,
//! if that does not parse either, again a deserialization error. A decode
//! failure is never conflated with a decoded empty value, and no default is
//! ever substituted.
//!
//! The JSON document itself is parsed by serde_json behind trusted items.
//! What those items return is named, not restated: [`json_doc_of`] is the
//! abstract document a byte string parses to, a [`JsonData`] tree, and
//! [`value_model`] ties each `serde_json::Value` to its tree. Every decision
//! — which members are required, which may be absent or null, what range a
//! number must fit — is made here in verified code, and each extractor's
//! contract says, over that model, exactly when it returns the typed value,
//! the exchange's error envelope, or a deserialization error.

use vstd::prelude::*;
use vstd::string::StringExecFns;
use crate::error::DefaultError;
use crate::error::Error;
use crate::error::ExtractError;
use crate::models;

verus! {

/// The abstract shape of a parsed JSON document, as far as this client
/// reads one: a number is kept only as "an unsigned 64-bit integer" or
/// "some other number", because no endpoint reads anything finer.
pub enum JsonData {
    Null,
    Bool(bool),
    UInt(u64),
    OtherNumber,
    Text(Seq<char>),
    Array(Seq<JsonData>),
    Object(Map<Seq<char>, JsonData>),
}

/// The elements of an array document; empty for any other document.
pub open spec fn arr_elems(d: JsonData) -> Seq<JsonData> {
    match d {
        JsonData::Array(elems) => elems,
        _ => Seq::empty(),
    }
}

/// The members of an object document; empty for any other document.
pub open spec fn obj_fields(d: JsonData) -> Map<Seq<char>, JsonData> {
    match d {
        JsonData::Object(fields) => fields,
        _ => Map::empty(),
    }
}

/// Declared so serde_json's parsed document can pass through signatures;
/// the document is opaque to this crate and is only read through the
/// accessors below.
#[verifier::external_type_specification]
#[verifier::external_body]
pub struct ExValue(serde_json::Value);

/// The abstract document a `serde_json::Value` holds: what the parse
/// returned, named rather than restated. A JSON number that is an unsigned
/// 64-bit integer is modeled as `UInt`, any other number as `OtherNumber`;
/// the accessor contracts below all speak of one and the same model.
pub uninterp spec fn value_model(v: serde_json::Value) -> JsonData;

/// Whether a byte string parses as one JSON document: a function of the
/// bytes alone.
pub uninterp spec fn parsed_json(bytes: Seq<u8>) -> bool;

/// The document a byte string parses to, meaningful only where
/// [`parsed_json`] holds: a function of the bytes alone.
pub uninterp spec fn json_doc_of(bytes: Seq<u8>) -> JsonData;

/// Relies on serde_json::from_slice::<Value>: parses the bytes as one JSON
/// document, or reports why they are not one. The parse is a function of
/// the bytes alone; it succeeds exactly on the bytes [`parsed_json`] names,
/// and the value it returns holds the document [`json_doc_of`] names.
#[verifier::external_body]
fn json_parse(bytes: &Vec<u8>) -> (r: Result<serde_json::Value, String>)
    ensures
        r is Ok <==> parsed_json(bytes@),
        r matches Ok(v) ==> value_model(v) == json_doc_of(bytes@),
{
    serde_json::from_slice(bytes).map_err(|e| format!("{}", e))
}

/// Relies on serde_json::Value::get with a string index: on an object, the
/// member under the key, if there is one; on any other value, nothing.
/// Handed out as an owned clone, which holds the same document.
#[verifier::external_body]
fn value_get(v: &serde_json::Value, key: &str) -> (r: Option<serde_json::Value>)
    ensures
        ({
            let m = value_model(*v);
            match m {
                JsonData::Object(fields) => {
                    &&& (r is Some <==> fields.dom().contains(key@))
                    &&& (r matches Some(member) ==> fields.dom().contains(key@) && value_model(
                        member,
                    ) == fields[key@])
                },
                _ => r is None,
            }
        }),
{
    v.get(key).cloned()
}

/// Relies on serde_json::Value::as_str: the text of a JSON string, and
/// nothing for any other kind of value.
#[verifier::external_body]
fn value_as_string(v: &serde_json::Value) -> (r: Option<String>)
    ensures
        r is Some <==> value_model(*v) is Text,
        r matches Some(s) ==> value_model(*v) == JsonData::Text(s@),
{
    v.as_str().map(|s| s.to_owned())
}

/// Relies on serde_json::Value::as_u64: the value of a JSON number that is
/// an unsigned 64-bit integer — exactly the numbers the model writes as
/// `UInt` — and nothing otherwise.
#[verifier::external_body]
fn value_as_u64(v: &serde_json::Value) -> (r: Option<u64>)
    ensures
        r is Some <==> value_model(*v) is UInt,
        r matches Some(n) ==> value_model(*v) == JsonData::UInt(n),
{
    v.as_u64()
}

/// Relies on serde_json::Value::as_bool: the value of a JSON boolean, and
/// nothing for any other kind of value.
#[verifier::external_body]
fn value_as_bool(v: &serde_json::Value) -> (r: Option<bool>)
    ensures
        r is Some <==> value_model(*v) is Bool,
        r matches Some(b) ==> value_model(*v) == JsonData::Bool(b),
{
    v.as_bool()
}

/// Relies on serde_json::Value::as_array: the elements of a JSON array in
/// order, handed out as owned clones holding the same documents, and
/// nothing for any other kind of value.
#[verifier::external_body]
fn value_as_array(v: &serde_json::Value) -> (r: Option<Vec<serde_json::Value>>)
    ensures
        r is Some <==> value_model(*v) is Array,
        r matches Some(items) ==> (value_model(*v) matches JsonData::Array(elems) && items@.len()
            == elems.len() && (forall|i: int|
            0 <= i < elems.len() ==> value_model(#[trigger] items@[i]) == elems[i])),
{
    v.as_array().cloned()
}

/// Relies on serde_json::Value::as_object and the map's iteration: the
/// members of a JSON object as owned pairs, one pair per key and every key
/// present, and nothing for any other kind of value. No order is assumed of
/// the pairs.
#[verifier::external_body]
fn value_entries(v: &serde_json::Value) -> (r: Option<Vec<(String, serde_json::Value)>>)
    ensures
        r is Some <==> value_model(*v) is Object,
        r matches Some(entries) ==> (value_model(*v) matches JsonData::Object(fields) && {
            &&& (forall|i: int|
                0 <= i < entries@.len() ==> fields.dom().contains((#[trigger] entries@[i]).0@)
                    && value_model(entries@[i].1) == fields[entries@[i].0@])
            &&& (forall|i: int, j: int|
                0 <= i < j < entries@.len() ==> (#[trigger] entries@[i]).0@ != (
                #[trigger] entries@[j]).0@)
            &&& (forall|k: Seq<char>|
                #[trigger] fields.dom().contains(k) ==> exists|i: int|
                    0 <= i < entries@.len() && (#[trigger] entries@[i]).0@ == k)
        }),
{
    v.as_object().map(|m| m.iter().map(|(k, member)| (k.clone(), member.clone())).collect())
}

/// Relies on serde_json::Value::is_null: whether the value is JSON `null`.
#[verifier::external_body]
fn value_is_null(v: &serde_json::Value) -> (r: bool)
    ensures
        r == (value_model(*v) is Null),
{
    v.is_null()
}

/// A status that signals success: the 2xx range.
pub open spec fn status_is_success(status: u16) -> bool {
    200 <= status < 300
}

/// Decides whether a status signals success.
pub fn is_success_status(status: u16) -> (r: bool)
    ensures
        r == status_is_success(status),
{
    200 <= status && status < 300
}

/// A deserialization failure must carry exactly the bytes it failed on; the
/// exchange's own error envelope carries none.
pub open spec fn keeps_original_bytes(e: &ExtractError, original: Seq<u8>) -> bool {
    match e {
        ExtractError::Deserialization { bytes, .. } => bytes@ == original,
        ExtractError::Api(_) => true,
    }
}

fn schema_mismatch() -> (r: String) {
    String::from_str("body does not match the expected schema")
}

/// An object member under `key` that is a JSON string.
pub open spec fn has_text(f: Map<Seq<char>, JsonData>, key: Seq<char>) -> bool {
    f.dom().contains(key) && f[key] is Text
}

/// The member under `key` is the JSON string `s`.
pub open spec fn text_is(f: Map<Seq<char>, JsonData>, key: Seq<char>, s: Seq<char>) -> bool {
    f.dom().contains(key) && f[key] == JsonData::Text(s)
}

/// An object member under `key` that is a JSON boolean.
pub open spec fn has_bool(f: Map<Seq<char>, JsonData>, key: Seq<char>) -> bool {
    f.dom().contains(key) && f[key] is Bool
}

/// The member under `key` is the JSON boolean `b`.
pub open spec fn bool_is(f: Map<Seq<char>, JsonData>, key: Seq<char>, b: bool) -> bool {
    f.dom().contains(key) && f[key] == JsonData::Bool(b)
}

/// An object member under `key` that is an unsigned 64-bit number.
pub open spec fn has_uint(f: Map<Seq<char>, JsonData>, key: Seq<char>) -> bool {
    f.dom().contains(key) && f[key] is UInt
}

/// The member under `key` is the number `n`.
pub open spec fn uint_is(f: Map<Seq<char>, JsonData>, key: Seq<char>, n: u64) -> bool {
    f.dom().contains(key) && f[key] == JsonData::UInt(n)
}

/// An object member under `key` that is a number fitting in 32 bits.
pub open spec fn fits_u32(f: Map<Seq<char>, JsonData>, key: Seq<char>) -> bool {
    f.dom().contains(key) && (f[key] matches JsonData::UInt(n) && n <= u32::MAX)
}

/// An optional string member: absent, `null`, or a JSON string.
pub open spec fn opt_text_ok(f: Map<Seq<char>, JsonData>, key: Seq<char>) -> bool {
    !f.dom().contains(key) || f[key] is Null || f[key] is Text
}

/// What an optional string member decoded to: `None` for absent or `null`,
/// the text otherwise.
pub open spec fn opt_text_is(f: Map<Seq<char>, JsonData>, key: Seq<char>, o: Option<
    String,
>) -> bool {
    match o {
        Some(s) => text_is(f, key, s@),
        None => !f.dom().contains(key) || f[key] is Null,
    }
}

fn required_string(v: &serde_json::Value, key: &str) -> (r: Option<String>)
    ensures
        r is Some <==> (value_model(*v) matches JsonData::Object(f) && has_text(f, key@)),
        r matches Some(s) ==> (value_model(*v) matches JsonData::Object(f) && text_is(
            f,
            key@,
            s@,
        )),
{
    match value_get(v, key) {
        Some(member) => value_as_string(&member),
        None => None,
    }
}

/// An optional string member: absent or `null` is a present `None`, a
/// member of any other kind than a string is a schema mismatch. "Failed to
/// decode" and "decoded an absent value" stay distinguishable.
fn optional_string(v: &serde_json::Value, key: &str) -> (r: Option<Option<String>>)
    ensures
        value_model(*v) matches JsonData::Object(f) ==> {
            &&& (r is Some <==> opt_text_ok(f, key@))
            &&& (r matches Some(o) ==> opt_text_is(f, key@, o))
        },
        !(value_model(*v) is Object) ==> r == Some(Option::<String>::None),
{
    match value_get(v, key) {
        Some(member) => {
            if value_is_null(&member) {
                Some(None)
            } else {
                match value_as_string(&member) {
                    Some(s) => Some(Some(s)),
                    None => None,
                }
            }
        },
        None => Some(None),
    }
}

fn required_bool(v: &serde_json::Value, key: &str) -> (r: Option<bool>)
    ensures
        r is Some <==> (value_model(*v) matches JsonData::Object(f) && has_bool(f, key@)),
        r matches Some(b) ==> (value_model(*v) matches JsonData::Object(f) && bool_is(
            f,
            key@,
            b,
        )),
{
    match value_get(v, key) {
        Some(member) => value_as_bool(&member),
        None => None,
    }
}

fn required_u64(v: &serde_json::Value, key: &str) -> (r: Option<u64>)
    ensures
        r is Some <==> (value_model(*v) matches JsonData::Object(f) && has_uint(f, key@)),
        r matches Some(n) ==> (value_model(*v) matches JsonData::Object(f) && uint_is(
            f,
            key@,
            n,
        )),
{
    match value_get(v, key) {
        Some(member) => value_as_u64(&member),
        None => None,
    }
}

/// A number member that must fit in 32 bits; one that does not is a schema
/// mismatch, never a truncation.
fn required_u32(v: &serde_json::Value, key: &str) -> (r: Option<u32>)
    ensures
        r is Some <==> (value_model(*v) matches JsonData::Object(f) && fits_u32(f, key@)),
        r matches Some(n) ==> (value_model(*v) matches JsonData::Object(f) && uint_is(
            f,
            key@,
            n as u64,
        )),
{
    match required_u64(v, key) {
        Some(n) => {
            if n <= 0xffff_ffff {
                Some(n as u32)
            } else {
                None
            }
        },
        None => None,
    }
}

/// A document that matches the balance-line schema.
pub open spec fn account_currency_shape(d: JsonData) -> bool {
    match d {
        JsonData::Object(f) => has_text(f, "currency"@) && has_text(f, "available"@) && has_text(
            f,
            "reserved"@,
        ),
        _ => false,
    }
}

/// The balance line a document decodes to.
pub open spec fn is_account_currency(d: JsonData, c: models::AccountCurrency) -> bool {
    match d {
        JsonData::Object(f) => text_is(f, "currency"@, c.currency@) && text_is(
            f,
            "available"@,
            c.available@,
        ) && text_is(f, "reserved"@, c.reserved@),
        _ => false,
    }
}

fn parse_account_currency(v: &serde_json::Value) -> (r: Option<models::AccountCurrency>)
    ensures
        r is Some <==> account_currency_shape(value_model(*v)),
        r matches Some(c) ==> is_account_currency(value_model(*v), c),
{
    let currency = match required_string(v, "currency") {
        Some(s) => s,
        None => { return None },
    };
    let available = match required_string(v, "available") {
        Some(s) => s,
        None => { return None },
    };
    let reserved = match required_string(v, "reserved") {
        Some(s) => s,
        None => { return None },
    };
    Some(models::AccountCurrency { currency, available, reserved })
}

/// A document that matches the balance schema: an array of balance lines.
pub open spec fn balance_shape(d: JsonData) -> bool {
    d is Array && (forall|i: int|
        0 <= i < arr_elems(d).len() ==> account_currency_shape(#[trigger] arr_elems(d)[i]))
}

/// The balance a document decodes to, element by element, in order.
pub open spec fn is_balance(d: JsonData, out: Seq<models::AccountCurrency>) -> bool {
    d is Array && out.len() == arr_elems(d).len() && (forall|i: int|
        0 <= i < out.len() ==> is_account_currency(#[trigger] arr_elems(d)[i], out[i]))
}

fn parse_balance(v: &serde_json::Value) -> (r: Option<Vec<models::AccountCurrency>>)
    ensures
        r is Some <==> balance_shape(value_model(*v)),
        r matches Some(t) ==> is_balance(value_model(*v), t@),
{
    let ghost m = value_model(*v);
    let items = match value_as_array(v) {
        Some(a) => a,
        None => { return None },
    };
    let ghost elems = arr_elems(m);
    let mut out: Vec<models::AccountCurrency> = Vec::new();
    let n = items.len();
    let mut i: usize = 0;
    while i < n
        invariant
            i <= n,
            n == items@.len(),
            m == value_model(*v),
            m is Array,
            elems == arr_elems(m),
            n == elems.len(),
            forall|j: int| 0 <= j < n ==> value_model(#[trigger] items@[j]) == elems[j],
            out@.len() == i,
            forall|j: int| 0 <= j < i ==> is_account_currency(elems[j], #[trigger] out@[j]),
        decreases n - i,
    {
        match parse_account_currency(&items[i]) {
            Some(c) => out.push(c),
            None => {
                proof {
                    assert(!account_currency_shape(arr_elems(m)[i as int]));
                }
                return None;
            },
        }
        i += 1;
    }
    proof {
        assert forall|j: int| 0 <= j < arr_elems(m).len() implies account_currency_shape(
            #[trigger] arr_elems(m)[j],
        ) by {
            assert(is_account_currency(elems[j], out@[j]));
        }
    }
    Some(out)
}

/// A document that matches the public-currency schema.
pub open spec fn public_currency_shape(d: JsonData) -> bool {
    match d {
        JsonData::Object(f) => {
            &&& has_text(f, "id"@)
            &&& has_text(f, "fullName"@)
            &&& has_bool(f, "payinEnabled"@)
            &&& has_bool(f, "payinPaymentId"@)
            &&& fits_u32(f, "payinConfirmations"@)
            &&& has_bool(f, "payoutEnabled"@)
            &&& has_bool(f, "payoutIsPaymentId"@)
            &&& has_bool(f, "transferEnabled"@)
            &&& has_bool(f, "delisted"@)
            &&& opt_text_ok(f, "payoutFee"@)
            &&& opt_text_ok(f, "payoutMinimalAmount"@)
            &&& fits_u32(f, "precisionPayout"@)
            &&& fits_u32(f, "precisionTransfer"@)
        },
        _ => false,
    }
}

/// The public currency a document decodes to.
pub open spec fn is_public_currency(d: JsonData, c: models::PublicCurrency) -> bool {
    match d {
        JsonData::Object(f) => {
            &&& text_is(f, "id"@, c.id@)
            &&& text_is(f, "fullName"@, c.full_name@)
            &&& bool_is(f, "payinEnabled"@, c.payin_enabled)
            &&& bool_is(f, "payinPaymentId"@, c.payin_payment_id)
            &&& uint_is(f, "payinConfirmations"@, c.payin_confirmations as u64)
            &&& bool_is(f, "payoutEnabled"@, c.payout_enabled)
            &&& bool_is(f, "payoutIsPaymentId"@, c.payout_is_payment_id)
            &&& bool_is(f, "transferEnabled"@, c.transfer_enabled)
            &&& bool_is(f, "delisted"@, c.delisted)
            &&& opt_text_is(f, "payoutFee"@, c.payout_fee)
            &&& opt_text_is(f, "payoutMinimalAmount"@, c.payout_minimal_amount)
            &&& uint_is(f, "precisionPayout"@, c.precision_payout as u64)
            &&& uint_is(f, "precisionTransfer"@, c.precision_transfer as u64)
        },
        _ => false,
    }
}

fn parse_public_currency(v: &serde_json::Value) -> (r: Option<models::PublicCurrency>)
    ensures
        r is Some <==> public_currency_shape(value_model(*v)),
        r matches Some(c) ==> is_public_currency(value_model(*v), c),
{
    let id = match required_string(v, "id") {
        Some(s) => s,
        None => { return None },
    };
    let full_name = match required_string(v, "fullName") {
        Some(s) => s,
        None => { return None },
    };
    let payin_enabled = match required_bool(v, "payinEnabled") {
        Some(b) => b,
        None => { return None },
    };
    let payin_payment_id = match required_bool(v, "payinPaymentId") {
        Some(b) => b,
        None => { return None },
    };
    let payin_confirmations = match required_u32(v, "payinConfirmations") {
        Some(n) => n,
        None => { return None },
    };
    let payout_enabled = match required_bool(v, "payoutEnabled") {
        Some(b) => b,
        None => { return None },
    };
    let payout_is_payment_id = match required_bool(v, "payoutIsPaymentId") {
        Some(b) => b,
        None => { return None },
    };
    let transfer_enabled = match required_bool(v, "transferEnabled") {
        Some(b) => b,
        None => { return None },
    };
    let delisted = match required_bool(v, "delisted") {
        Some(b) => b,
        None => { return None },
    };
    let payout_fee = match optional_string(v, "payoutFee") {
        Some(s) => s,
        None => { return None },
    };
    let payout_minimal_amount = match optional_string(v, "payoutMinimalAmount") {
        Some(s) => s,
        None => { return None },
    };
    let precision_payout = match required_u32(v, "precisionPayout") {
        Some(n) => n,
        None => { return None },
    };
    let precision_transfer = match required_u32(v, "precisionTransfer") {
        Some(n) => n,
        None => { return None },
    };
    Some(
        models::PublicCurrency {
            id,
            full_name,
            payin_enabled,
            payin_payment_id,
            payin_confirmations,
            payout_enabled,
            payout_is_payment_id,
            transfer_enabled,
            delisted,
            payout_fee,
            payout_minimal_amount,
            precision_payout,
            precision_transfer,
        },
    )
}

/// A document that matches the currency-listing schema.
pub open spec fn currencies_shape(d: JsonData) -> bool {
    d is Array && (forall|i: int|
        0 <= i < arr_elems(d).len() ==> public_currency_shape(#[trigger] arr_elems(d)[i]))
}

/// The currency listing a document decodes to, in order.
pub open spec fn is_currencies(d: JsonData, out: Seq<models::PublicCurrency>) -> bool {
    d is Array && out.len() == arr_elems(d).len() && (forall|i: int|
        0 <= i < out.len() ==> is_public_currency(#[trigger] arr_elems(d)[i], out[i]))
}

fn parse_currencies(v: &serde_json::Value) -> (r: Option<Vec<models::PublicCurrency>>)
    ensures
        r is Some <==> currencies_shape(value_model(*v)),
        r matches Some(t) ==> is_currencies(value_model(*v), t@),
{
    let ghost m = value_model(*v);
    let items = match value_as_array(v) {
        Some(a) => a,
        None => { return None },
    };
    let ghost elems = arr_elems(m);
    let mut out: Vec<models::PublicCurrency> = Vec::new();
    let n = items.len();
    let mut i: usize = 0;
    while i < n
        invariant
            i <= n,
            n == items@.len(),
            m == value_model(*v),
            m is Array,
            elems == arr_elems(m),
            n == elems.len(),
            forall|j: int| 0 <= j < n ==> value_model(#[trigger] items@[j]) == elems[j],
            out@.len() == i,
            forall|j: int| 0 <= j < i ==> is_public_currency(elems[j], #[trigger] out@[j]),
        decreases n - i,
    {
        match parse_public_currency(&items[i]) {
            Some(c) => out.push(c),
            None => {
                proof {
                    assert(!public_currency_shape(arr_elems(m)[i as int]));
                }
                return None;
            },
        }
        i += 1;
    }
    proof {
        assert forall|j: int| 0 <= j < arr_elems(m).len() implies public_currency_shape(
            #[trigger] arr_elems(m)[j],
        ) by {
            assert(is_public_currency(elems[j], out@[j]));
        }
    }
    Some(out)
}

/// A document that matches the reported-order schema.
pub open spec fn order_shape(d: JsonData) -> bool {
    match d {
        JsonData::Object(f) => {
            &&& has_uint(f, "id"@)
            &&& has_text(f, "clientOrderId"@)
            &&& has_text(f, "symbol"@)
            &&& has_text(f, "side"@)
            &&& has_text(f, "status"@)
            &&& has_text(f, "type"@)
            &&& has_text(f, "timeInForce"@)
            &&& has_text(f, "quantity"@)
            &&& opt_text_ok(f, "price"@)
            &&& has_text(f, "cumQuantity"@)
            &&& has_text(f, "createdAt"@)
            &&& opt_text_ok(f, "udpatedAt"@)
            &&& has_bool(f, "postOnly"@)
            &&& opt_text_ok(f, "expireTime"@)
        },
        _ => false,
    }
}

/// The reported order a document decodes to.
pub open spec fn is_order(d: JsonData, o: models::Order) -> bool {
    match d {
        JsonData::Object(f) => {
            &&& uint_is(f, "id"@, o.id)
            &&& text_is(f, "clientOrderId"@, o.client_order_id@)
            &&& text_is(f, "symbol"@, o.symbol@)
            &&& text_is(f, "side"@, o.side@)
            &&& text_is(f, "status"@, o.status@)
            &&& text_is(f, "type"@, o.order_type@)
            &&& text_is(f, "timeInForce"@, o.time_in_force@)
            &&& text_is(f, "quantity"@, o.quantity@)
            &&& opt_text_is(f, "price"@, o.price)
            &&& text_is(f, "cumQuantity"@, o.cim_quantity@)
            &&& text_is(f, "createdAt"@, o.created_at@)
            &&& opt_text_is(f, "udpatedAt"@, o.updated_at)
            &&& bool_is(f, "postOnly"@, o.post_only)
            &&& opt_text_is(f, "expireTime"@, o.expire_time)
        },
        _ => false,
    }
}

fn parse_order(v: &serde_json::Value) -> (r: Option<models::Order>)
    ensures
        r is Some <==> order_shape(value_model(*v)),
        r matches Some(o) ==> is_order(value_model(*v), o),
{
    let id = match required_u64(v, "id") {
        Some(n) => n,
        None => { return None },
    };
    let client_order_id = match required_string(v, "clientOrderId") {
        Some(s) => s,
        None => { return None },
    };
    let symbol = match required_string(v, "symbol") {
        Some(s) => s,
        None => { return None },
    };
    let side = match required_string(v, "side") {
        Some(s) => s,
        None => { return None },
    };
    let status = match required_string(v, "status") {
        Some(s) => s,
        None => { return None },
    };
    let order_type = match required_string(v, "type") {
        Some(s) => s,
        None => { return None },
    };
    let time_in_force = match required_string(v, "timeInForce") {
        Some(s) => s,
        None => { return None },
    };
    let quantity = match required_string(v, "quantity") {
        Some(s) => s,
        None => { return None },
    };
    let price = match optional_string(v, "price") {
        Some(s) => s,
        None => { return None },
    };
    let cim_quantity = match required_string(v, "cumQuantity") {
        Some(s) => s,
        None => { return None },
    };
    let created_at = match required_string(v, "createdAt") {
        Some(s) => s,
        None => { return None },
    };
    let updated_at = match optional_string(v, "udpatedAt") {
        Some(s) => s,
        None => { return None },
    };
    let post_only = match required_bool(v, "postOnly") {
        Some(b) => b,
        None => { return None },
    };
    let expire_time = match optional_string(v, "expireTime") {
        Some(s) => s,
        None => { return None },
    };
    Some(
        models::Order {
            id,
            client_order_id,
            symbol,
            side,
            status,
            order_type,
            time_in_force,
            quantity,
            price,
            cim_quantity,
            created_at,
            updated_at,
            post_only,
            expire_time,
        },
    )
}

/// A document that matches the order-listing schema.
pub open spec fn orders_shape(d: JsonData) -> bool {
    d is Array && (forall|i: int|
        0 <= i < arr_elems(d).len() ==> order_shape(#[trigger] arr_elems(d)[i]))
}

/// The order listing a document decodes to, in order.
pub open spec fn is_orders(d: JsonData, out: Seq<models::Order>) -> bool {
    d is Array && out.len() == arr_elems(d).len() && (forall|i: int|
        0 <= i < out.len() ==> is_order(#[trigger] arr_elems(d)[i], out[i]))
}

fn parse_orders(v: &serde_json::Value) -> (r: Option<Vec<models::Order>>)
    ensures
        r is Some <==> orders_shape(value_model(*v)),
        r matches Some(t) ==> is_orders(value_model(*v), t@),
{
    let ghost m = value_model(*v);
    let items = match value_as_array(v) {
        Some(a) => a,
        None => { return None },
    };
    let ghost elems = arr_elems(m);
    let mut out: Vec<models::Order> = Vec::new();
    let n = items.len();
    let mut i: usize = 0;
    while i < n
        invariant
            i <= n,
            n == items@.len(),
            m == value_model(*v),
            m is Array,
            elems == arr_elems(m),
            n == elems.len(),
            forall|j: int| 0 <= j < n ==> value_model(#[trigger] items@[j]) == elems[j],
            out@.len() == i,
            forall|j: int| 0 <= j < i ==> is_order(elems[j], #[trigger] out@[j]),
        decreases n - i,
    {
        match parse_order(&items[i]) {
            Some(o) => out.push(o),
            None => {
                proof {
                    assert(!order_shape(arr_elems(m)[i as int]));
                }
                return None;
            },
        }
        i += 1;
    }
    proof {
        assert forall|j: int| 0 <= j < arr_elems(m).len() implies order_shape(
            #[trigger] arr_elems(m)[j],
        ) by {
            assert(is_order(elems[j], out@[j]));
        }
    }
    Some(out)
}

/// A document that matches the market-description schema.
pub open spec fn symbol_shape(d: JsonData) -> bool {
    match d {
        JsonData::Object(f) => {
            &&& has_text(f, "id"@)
            &&& has_text(f, "baseCurrency"@)
            &&& has_text(f, "quoteCurrency"@)
            &&& has_text(f, "quantityIncrement"@)
            &&& has_text(f, "tickSize"@)
            &&& has_text(f, "takeLiquidityRate"@)
            &&& has_text(f, "provideLiquidityRate"@)
            &&& has_text(f, "feeCurrency"@)
        },
        _ => false,
    }
}

/// The market description a document decodes to.
pub open spec fn is_symbol(d: JsonData, s: models::Symbol) -> bool {
    match d {
        JsonData::Object(f) => {
            &&& text_is(f, "id"@, s.id@)
            &&& text_is(f, "baseCurrency"@, s.base_currency@)
            &&& text_is(f, "quoteCurrency"@, s.quote_currency@)
            &&& text_is(f, "quantityIncrement"@, s.quantity_increment@)
            &&& text_is(f, "tickSize"@, s.tick_size@)
            &&& text_is(f, "takeLiquidityRate"@, s.take_liquidity_rate@)
            &&& text_is(f, "provideLiquidityRate"@, s.provide_liquidity_rate@)
            &&& text_is(f, "feeCurrency"@, s.fee_currency@)
        },
        _ => false,
    }
}

fn parse_symbol(v: &serde_json::Value) -> (r: Option<models::Symbol>)
    ensures
        r is Some <==> symbol_shape(value_model(*v)),
        r matches Some(s) ==> is_symbol(value_model(*v), s),
{
    let id = match required_string(v, "id") {
        Some(s) => s,
        None => { return None },
    };
    let base_currency = match required_string(v, "baseCurrency") {
        Some(s) => s,
        None => { return None },
    };
    let quote_currency = match required_string(v, "quoteCurrency") {
        Some(s) => s,
        None => { return None },
    };
    let quantity_increment = match required_string(v, "quantityIncrement") {
        Some(s) => s,
        None => { return None },
    };
    let tick_size = match required_string(v, "tickSize") {
        Some(s) => s,
        None => { return None },
    };
    let take_liquidity_rate = match required_string(v, "takeLiquidityRate") {
        Some(s) => s,
        None => { return None },
    };
    let provide_liquidity_rate = match required_string(v, "provideLiquidityRate") {
        Some(s) => s,
        None => { return None },
    };
    let fee_currency = match required_string(v, "feeCurrency") {
        Some(s) => s,
        None => { return None },
    };
    Some(
        models::Symbol {
            id,
            base_currency,
            quote_currency,
            quantity_increment,
            tick_size,
            take_liquidity_rate,
            provide_liquidity_rate,
            fee_currency,
        },
    )
}

/// A document that matches the market-listing schema.
pub open spec fn symbols_shape(d: JsonData) -> bool {
    d is Array && (forall|i: int|
        0 <= i < arr_elems(d).len() ==> symbol_shape(#[trigger] arr_elems(d)[i]))
}

/// The market listing a document decodes to, in order.
pub open spec fn is_symbols(d: JsonData, out: Seq<models::Symbol>) -> bool {
    d is Array && out.len() == arr_elems(d).len() && (forall|i: int|
        0 <= i < out.len() ==> is_symbol(#[trigger] arr_elems(d)[i], out[i]))
}

fn parse_symbols(v: &serde_json::Value) -> (r: Option<Vec<models::Symbol>>)
    ensures
        r is Some <==> symbols_shape(value_model(*v)),
        r matches Some(t) ==> is_symbols(value_model(*v), t@),
{
    let ghost m = value_model(*v);
    let items = match value_as_array(v) {
        Some(a) => a,
        None => { return None },
    };
    let ghost elems = arr_elems(m);
    let mut out: Vec<models::Symbol> = Vec::new();
    let n = items.len();
    let mut i: usize = 0;
    while i < n
        invariant
            i <= n,
            n == items@.len(),
            m == value_model(*v),
            m is Array,
            elems == arr_elems(m),
            n == elems.len(),
            forall|j: int| 0 <= j < n ==> value_model(#[trigger] items@[j]) == elems[j],
            out@.len() == i,
            forall|j: int| 0 <= j < i ==> is_symbol(elems[j], #[trigger] out@[j]),
        decreases n - i,
    {
        match parse_symbol(&items[i]) {
            Some(s) => out.push(s),
            None => {
                proof {
                    assert(!symbol_shape(arr_elems(m)[i as int]));
                }
                return None;
            },
        }
        i += 1;
    }
    proof {
        assert forall|j: int| 0 <= j < arr_elems(m).len() implies symbol_shape(
            #[trigger] arr_elems(m)[j],
        ) by {
            assert(is_symbol(elems[j], out@[j]));
        }
    }
    Some(out)
}

/// A document that matches the price-level schema.
pub open spec fn price_shape(d: JsonData) -> bool {
    match d {
        JsonData::Object(f) => has_text(f, "price"@) && has_text(f, "size"@),
        _ => false,
    }
}

/// The price level a document decodes to.
pub open spec fn is_price(d: JsonData, p: models::Price) -> bool {
    match d {
        JsonData::Object(f) => text_is(f, "price"@, p.price@) && text_is(f, "size"@, p.size@),
        _ => false,
    }
}

fn parse_price(v: &serde_json::Value) -> (r: Option<models::Price>)
    ensures
        r is Some <==> price_shape(value_model(*v)),
        r matches Some(p) ==> is_price(value_model(*v), p),
{
    let price = match required_string(v, "price") {
        Some(s) => s,
        None => { return None },
    };
    let size = match required_string(v, "size") {
        Some(s) => s,
        None => { return None },
    };
    Some(models::Price { price, size })
}

/// A document that matches one side's price-level list.
pub open spec fn prices_shape(d: JsonData) -> bool {
    d is Array && (forall|i: int|
        0 <= i < arr_elems(d).len() ==> price_shape(#[trigger] arr_elems(d)[i]))
}

/// The price levels a document decodes to, in order.
pub open spec fn is_prices(d: JsonData, out: Seq<models::Price>) -> bool {
    d is Array && out.len() == arr_elems(d).len() && (forall|i: int|
        0 <= i < out.len() ==> is_price(#[trigger] arr_elems(d)[i], out[i]))
}

fn parse_prices(v: &serde_json::Value) -> (r: Option<Vec<models::Price>>)
    ensures
        r is Some <==> prices_shape(value_model(*v)),
        r matches Some(t) ==> is_prices(value_model(*v), t@),
{
    let ghost m = value_model(*v);
    let items = match value_as_array(v) {
        Some(a) => a,
        None => { return None },
    };
    let ghost elems = arr_elems(m);
    let mut out: Vec<models::Price> = Vec::new();
    let n = items.len();
    let mut i: usize = 0;
    while i < n
        invariant
            i <= n,
            n == items@.len(),
            m == value_model(*v),
            m is Array,
            elems == arr_elems(m),
            n == elems.len(),
            forall|j: int| 0 <= j < n ==> value_model(#[trigger] items@[j]) == elems[j],
            out@.len() == i,
            forall|j: int| 0 <= j < i ==> is_price(elems[j], #[trigger] out@[j]),
        decreases n - i,
    {
        match parse_price(&items[i]) {
            Some(p) => out.push(p),
            None => {
                proof {
                    assert(!price_shape(arr_elems(m)[i as int]));
                }
                return None;
            },
        }
        i += 1;
    }
    proof {
        assert forall|j: int| 0 <= j < arr_elems(m).len() implies price_shape(
            #[trigger] arr_elems(m)[j],
        ) by {
            assert(is_price(elems[j], out@[j]));
        }
    }
    Some(out)
}

/// A document that matches one market's order-book page.
pub open spec fn orderbook_page_shape(d: JsonData) -> bool {
    match d {
        JsonData::Object(f) => {
            &&& has_text(f, "symbol"@)
            &&& f.dom().contains("ask"@) && prices_shape(f["ask"@])
            &&& f.dom().contains("bid"@) && prices_shape(f["bid"@])
            &&& has_text(f, "timestamp"@)
        },
        _ => false,
    }
}

/// The order-book page a document decodes to.
pub open spec fn is_orderbook_page(d: JsonData, p: models::OrderBookPage) -> bool {
    match d {
        JsonData::Object(f) => {
            &&& text_is(f, "symbol"@, p.symbol@)
            &&& f.dom().contains("ask"@) && is_prices(f["ask"@], p.ask@)
            &&& f.dom().contains("bid"@) && is_prices(f["bid"@], p.bid@)
            &&& text_is(f, "timestamp"@, p.timestamp@)
        },
        _ => false,
    }
}

fn parse_orderbook_page(v: &serde_json::Value) -> (r: Option<models::OrderBookPage>)
    ensures
        r is Some <==> orderbook_page_shape(value_model(*v)),
        r matches Some(p) ==> is_orderbook_page(value_model(*v), p),
{
    let symbol = match required_string(v, "symbol") {
        Some(s) => s,
        None => { return None },
    };
    let ask = match value_get(v, "ask") {
        Some(member) => match parse_prices(&member) {
            Some(p) => p,
            None => { return None },
        },
        None => { return None },
    };
    let bid = match value_get(v, "bid") {
        Some(member) => match parse_prices(&member) {
            Some(p) => p,
            None => { return None },
        },
        None => { return None },
    };
    let timestamp = match required_string(v, "timestamp") {
        Some(s) => s,
        None => { return None },
    };
    Some(models::OrderBookPage { symbol, ask, bid, timestamp })
}

/// A document that matches the full order-book schema: an object with one
/// page per market key.
pub open spec fn orderbook_shape(d: JsonData) -> bool {
    d is Object && (forall|k: Seq<char>|
        #[trigger] obj_fields(d).dom().contains(k) ==> orderbook_page_shape(obj_fields(d)[k]))
}

/// The order book a document decodes to: one entry per key of the object,
/// each key once, each page decoded from its member.
pub open spec fn is_orderbook(d: JsonData, out: Seq<(String, models::OrderBookPage)>) -> bool {
    &&& d is Object
    &&& (forall|i: int|
        0 <= i < out.len() ==> obj_fields(d).dom().contains((#[trigger] out[i]).0@)
            && is_orderbook_page(obj_fields(d)[out[i].0@], out[i].1))
    &&& (forall|i: int, j: int|
        0 <= i < j < out.len() ==> (#[trigger] out[i]).0@ != (#[trigger] out[j]).0@)
    &&& (forall|k: Seq<char>|
        #[trigger] obj_fields(d).dom().contains(k) ==> exists|i: int|
            0 <= i < out.len() && (#[trigger] out[i]).0@ == k)
}

fn parse_orderbook(v: &serde_json::Value) -> (r: Option<Vec<(String, models::OrderBookPage)>>)
    ensures
        r is Some <==> orderbook_shape(value_model(*v)),
        r matches Some(t) ==> is_orderbook(value_model(*v), t@),
{
    let ghost m = value_model(*v);
    let entries = match value_entries(v) {
        Some(e) => e,
        None => { return None },
    };
    let ghost fields = obj_fields(m);
    let mut out: Vec<(String, models::OrderBookPage)> = Vec::new();
    let n = entries.len();
    let mut i: usize = 0;
    while i < n
        invariant
            i <= n,
            n == entries@.len(),
            m == value_model(*v),
            m is Object,
            fields == obj_fields(m),
            forall|j: int|
                0 <= j < n ==> fields.dom().contains((#[trigger] entries@[j]).0@) && value_model(
                    entries@[j].1,
                ) == fields[entries@[j].0@],
            forall|j: int, l: int|
                0 <= j < l < n ==> (#[trigger] entries@[j]).0@ != (#[trigger] entries@[l]).0@,
            forall|k: Seq<char>|
                #[trigger] fields.dom().contains(k) ==> exists|j: int|
                    0 <= j < n && (#[trigger] entries@[j]).0@ == k,
            out@.len() == i,
            forall|j: int|
                0 <= j < i ==> (#[trigger] out@[j]).0@ == entries@[j].0@ && is_orderbook_page(
                    fields[entries@[j].0@],
                    out@[j].1,
                ),
        decreases n - i,
    {
        let entry = &entries[i];
        match parse_orderbook_page(&entry.1) {
            Some(page) => {
                out.push((entry.0.clone(), page));
            },
            None => {
                proof {
                    assert(obj_fields(m).dom().contains(entries@[i as int].0@));
                    assert(!orderbook_page_shape(obj_fields(m)[entries@[i as int].0@]));
                }
                return None;
            },
        }
        i += 1;
    }
    proof {
        assert forall|k: Seq<char>| #[trigger] obj_fields(m).dom().contains(k)
            implies orderbook_page_shape(obj_fields(m)[k]) by {
            let j = choose|j: int| 0 <= j < n && (#[trigger] entries@[j]).0@ == k;
            assert(is_orderbook_page(fields[entries@[j].0@], out@[j].1));
        }
        assert forall|k: Seq<char>| #[trigger] obj_fields(m).dom().contains(k) implies exists|
            i: int,
        |
            0 <= i < out@.len() && (#[trigger] out@[i]).0@ == k by {
            let j = choose|j: int| 0 <= j < n && (#[trigger] entries@[j]).0@ == k;
            assert(out@[j].0@ == k);
        }
    }
    Some(out)
}

/// A document that matches the single-market order-book schema.
pub open spec fn orderbook_exact_shape(d: JsonData) -> bool {
    match d {
        JsonData::Object(f) => {
            &&& f.dom().contains("ask"@) && prices_shape(f["ask"@])
            &&& f.dom().contains("bid"@) && prices_shape(f["bid"@])
            &&& has_text(f, "timestamp"@)
            &&& has_text(f, "askAveragePrice"@)
            &&& has_text(f, "bidAveragePrice"@)
        },
        _ => false,
    }
}

/// The single-market order book a document decodes to.
pub open spec fn is_orderbook_exact(d: JsonData, p: models::OrderbookExactSymbol) -> bool {
    match d {
        JsonData::Object(f) => {
            &&& f.dom().contains("ask"@) && is_prices(f["ask"@], p.ask@)
            &&& f.dom().contains("bid"@) && is_prices(f["bid"@], p.bid@)
            &&& text_is(f, "timestamp"@, p.timestamp@)
            &&& text_is(f, "askAveragePrice"@, p.ask_average_price@)
            &&& text_is(f, "bidAveragePrice"@, p.bid_average_price@)
        },
        _ => false,
    }
}

fn parse_orderbook_exact_symbol(v: &serde_json::Value) -> (r: Option<models::OrderbookExactSymbol>)
    ensures
        r is Some <==> orderbook_exact_shape(value_model(*v)),
        r matches Some(p) ==> is_orderbook_exact(value_model(*v), p),
{
    let ask = match value_get(v, "ask") {
        Some(member) => match parse_prices(&member) {
            Some(p) => p,
            None => { return None },
        },
        None => { return None },
    };
    let bid = match value_get(v, "bid") {
        Some(member) => match parse_prices(&member) {
            Some(p) => p,
            None => { return None },
        },
        None => { return None },
    };
    let timestamp = match required_string(v, "timestamp") {
        Some(s) => s,
        None => { return None },
    };
    let ask_average_price = match required_string(v, "askAveragePrice") {
        Some(s) => s,
        None => { return None },
    };
    let bid_average_price = match required_string(v, "bidAveragePrice") {
        Some(s) => s,
        None => { return None },
    };
    Some(
        models::OrderbookExactSymbol {
            ask,
            bid,
            timestamp,
            ask_average_price,
            bid_average_price,
        },
    )
}

/// A document that matches the trading-commission schema.
pub open spec fn commission_shape(d: JsonData) -> bool {
    match d {
        JsonData::Object(f) => has_text(f, "takeLiquidityRate"@) && has_text(
            f,
            "provideLiquidityRate"@,
        ),
        _ => false,
    }
}

/// The trading commission a document decodes to.
pub open spec fn is_commission(d: JsonData, c: models::TradingCommission) -> bool {
    match d {
        JsonData::Object(f) => text_is(f, "takeLiquidityRate"@, c.take_liquidity_rate@) && text_is(
            f,
            "provideLiquidityRate"@,
            c.provide_liquidity_rate@,
        ),
        _ => false,
    }
}

fn parse_trading_commission(v: &serde_json::Value) -> (r: Option<models::TradingCommission>)
    ensures
        r is Some <==> commission_shape(value_model(*v)),
        r matches Some(c) ==> is_commission(value_model(*v), c),
{
    let take_liquidity_rate = match required_string(v, "takeLiquidityRate") {
        Some(s) => s,
        None => { return None },
    };
    let provide_liquidity_rate = match required_string(v, "provideLiquidityRate") {
        Some(s) => s,
        None => { return None },
    };
    Some(models::TradingCommission { take_liquidity_rate, provide_liquidity_rate })
}

/// A document that matches the exchange's error envelope:
/// `{"error": {"code", "message", "description"?}}`.
pub open spec fn error_envelope_shape(d: JsonData) -> bool {
    match d {
        JsonData::Object(f) => f.dom().contains("error"@) && match f["error"@] {
            JsonData::Object(g) => fits_u32(g, "code"@) && has_text(g, "message"@) && opt_text_ok(
                g,
                "description"@,
            ),
            _ => false,
        },
        _ => false,
    }
}

/// The structured error a document's envelope decodes to.
pub open spec fn is_default_error(d: JsonData, e: DefaultError) -> bool {
    match d {
        JsonData::Object(f) => f.dom().contains("error"@) && match f["error"@] {
            JsonData::Object(g) => uint_is(g, "code"@, e.code as u64) && text_is(
                g,
                "message"@,
                e.message@,
            ) && opt_text_is(g, "description"@, e.description),
            _ => false,
        },
        _ => false,
    }
}

fn parse_error_envelope(v: &serde_json::Value) -> (r: Option<Error>)
    ensures
        r is Some <==> error_envelope_shape(value_model(*v)),
        r matches Some(envelope) ==> is_default_error(value_model(*v), envelope.error),
{
    let envelope = match value_get(v, "error") {
        Some(member) => member,
        None => { return None },
    };
    let code = match required_u32(&envelope, "code") {
        Some(n) => n,
        None => { return None },
    };
    let message = match required_string(&envelope, "message") {
        Some(s) => s,
        None => { return None },
    };
    let description = match optional_string(&envelope, "description") {
        Some(s) => s,
        None => { return None },
    };
    Some(Error { error: DefaultError { code, message, description } })
}

/// Decodes a failure-status body: the exchange's error envelope exactly
/// when the body parses as one, otherwise a deserialization error that
/// keeps the bytes.
fn failure_from(body: Vec<u8>) -> (r: ExtractError)
    ensures
        keeps_original_bytes(&r, body@),
        r is Api <==> parsed_json(body@) && error_envelope_shape(json_doc_of(body@)),
        r matches ExtractError::Api(e) ==> is_default_error(json_doc_of(body@), e),
{
    match json_parse(&body) {
        Ok(v) => match parse_error_envelope(&v) {
            Some(envelope) => ExtractError::Api(envelope.error),
            None => ExtractError::Deserialization { bytes: body, diagnostic: schema_mismatch() },
        },
        Err(diagnostic) => ExtractError::Deserialization { bytes: body, diagnostic },
    }
}

/// Decodes a balance response: the typed balance exactly when the status
/// signals success and the body parses as the balance schema.
pub fn extract_balance(status: u16, body: Vec<u8>) -> (r: Result<models::Balance, ExtractError>)
    ensures
        r is Ok <==> status_is_success(status) && parsed_json(body@) && balance_shape(
            json_doc_of(body@),
        ),
        r matches Ok(t) ==> is_balance(json_doc_of(body@), t@),
        status_is_success(status) ==> !(r matches Err(ExtractError::Api(..))),
        status_is_success(status) && !parsed_json(body@) ==> r matches Err(
            ExtractError::Deserialization { .. },
        ),
        !status_is_success(status) ==> ((r matches Err(ExtractError::Api(..))) <==> parsed_json(
            body@,
        ) && error_envelope_shape(json_doc_of(body@))),
        r matches Err(ExtractError::Api(e)) ==> is_default_error(json_doc_of(body@), e),
        r matches Err(e) ==> keeps_original_bytes(&e, body@),
{
    if !is_success_status(status) {
        return Err(failure_from(body));
    }
    match json_parse(&body) {
        Ok(v) => match parse_balance(&v) {
            Some(t) => Ok(t),
            None => Err(
                ExtractError::Deserialization { bytes: body, diagnostic: schema_mismatch() },
            ),
        },
        Err(diagnostic) => Err(ExtractError::Deserialization { bytes: body, diagnostic }),
    }
}

/// Decodes a public currency listing: the typed list exactly when the
/// status signals success and the body parses as the listing schema.
pub fn extract_currencies(status: u16, body: Vec<u8>) -> (r: Result<
    Vec<models::PublicCurrency>,
    ExtractError,
>)
    ensures
        r is Ok <==> status_is_success(status) && parsed_json(body@) && currencies_shape(
            json_doc_of(body@),
        ),
        r matches Ok(t) ==> is_currencies(json_doc_of(body@), t@),
        status_is_success(status) ==> !(r matches Err(ExtractError::Api(..))),
        status_is_success(status) && !parsed_json(body@) ==> r matches Err(
            ExtractError::Deserialization { .. },
        ),
        !status_is_success(status) ==> ((r matches Err(ExtractError::Api(..))) <==> parsed_json(
            body@,
        ) && error_envelope_shape(json_doc_of(body@))),
        r matches Err(ExtractError::Api(e)) ==> is_default_error(json_doc_of(body@), e),
        r matches Err(e) ==> keeps_original_bytes(&e, body@),
{
    if !is_success_status(status) {
        return Err(failure_from(body));
    }
    match json_parse(&body) {
        Ok(v) => match parse_currencies(&v) {
            Some(t) => Ok(t),
            None => Err(
                ExtractError::Deserialization { bytes: body, diagnostic: schema_mismatch() },
            ),
        },
        Err(diagnostic) => Err(ExtractError::Deserialization { bytes: body, diagnostic }),
    }
}

/// Decodes an order listing: the typed list exactly when the status signals
/// success and the body parses as the listing schema.
pub fn extract_orders(status: u16, body: Vec<u8>) -> (r: Result<models::Orders, ExtractError>)
    ensures
        r is Ok <==> status_is_success(status) && parsed_json(body@) && orders_shape(
            json_doc_of(body@),
        ),
        r matches Ok(t) ==> is_orders(json_doc_of(body@), t@),
        status_is_success(status) ==> !(r matches Err(ExtractError::Api(..))),
        status_is_success(status) && !parsed_json(body@) ==> r matches Err(
            ExtractError::Deserialization { .. },
        ),
        !status_is_success(status) ==> ((r matches Err(ExtractError::Api(..))) <==> parsed_json(
            body@,
        ) && error_envelope_shape(json_doc_of(body@))),
        r matches Err(ExtractError::Api(e)) ==> is_default_error(json_doc_of(body@), e),
        r matches Err(e) ==> keeps_original_bytes(&e, body@),
{
    if !is_success_status(status) {
        return Err(failure_from(body));
    }
    match json_parse(&body) {
        Ok(v) => match parse_orders(&v) {
            Some(t) => Ok(t),
            None => Err(
                ExtractError::Deserialization { bytes: body, diagnostic: schema_mismatch() },
            ),
        },
        Err(diagnostic) => Err(ExtractError::Deserialization { bytes: body, diagnostic }),
    }
}

/// Decodes one order: the typed order exactly when the status signals
/// success and the body parses as the order schema.
pub fn extract_order(status: u16, body: Vec<u8>) -> (r: Result<models::Order, ExtractError>)
    ensures
        r is Ok <==> status_is_success(status) && parsed_json(body@) && order_shape(
            json_doc_of(body@),
        ),
        r matches Ok(o) ==> is_order(json_doc_of(body@), o),
        status_is_success(status) ==> !(r matches Err(ExtractError::Api(..))),
        status_is_success(status) && !parsed_json(body@) ==> r matches Err(
            ExtractError::Deserialization { .. },
        ),
        !status_is_success(status) ==> ((r matches Err(ExtractError::Api(..))) <==> parsed_json(
            body@,
        ) && error_envelope_shape(json_doc_of(body@))),
        r matches Err(ExtractError::Api(e)) ==> is_default_error(json_doc_of(body@), e),
        r matches Err(e) ==> keeps_original_bytes(&e, body@),
{
    if !is_success_status(status) {
        return Err(failure_from(body));
    }
    match json_parse(&body) {
        Ok(v) => match parse_order(&v) {
            Some(o) => Ok(o),
            None => Err(
                ExtractError::Deserialization { bytes: body, diagnostic: schema_mismatch() },
            ),
        },
        Err(diagnostic) => Err(ExtractError::Deserialization { bytes: body, diagnostic }),
    }
}

/// Decodes a market listing: the typed list exactly when the status signals
/// success and the body parses as the listing schema.
pub fn extract_symbols(status: u16, body: Vec<u8>) -> (r: Result<models::Symbols, ExtractError>)
    ensures
        r is Ok <==> status_is_success(status) && parsed_json(body@) && symbols_shape(
            json_doc_of(body@),
        ),
        r matches Ok(t) ==> is_symbols(json_doc_of(body@), t@),
        status_is_success(status) ==> !(r matches Err(ExtractError::Api(..))),
        status_is_success(status) && !parsed_json(body@) ==> r matches Err(
            ExtractError::Deserialization { .. },
        ),
        !status_is_success(status) ==> ((r matches Err(ExtractError::Api(..))) <==> parsed_json(
            body@,
        ) && error_envelope_shape(json_doc_of(body@))),
        r matches Err(ExtractError::Api(e)) ==> is_default_error(json_doc_of(body@), e),
        r matches Err(e) ==> keeps_original_bytes(&e, body@),
{
    if !is_success_status(status) {
        return Err(failure_from(body));
    }
    match json_parse(&body) {
        Ok(v) => match parse_symbols(&v) {
            Some(t) => Ok(t),
            None => Err(
                ExtractError::Deserialization { bytes: body, diagnostic: schema_mismatch() },
            ),
        },
        Err(diagnostic) => Err(ExtractError::Deserialization { bytes: body, diagnostic }),
    }
}

/// Decodes a full order book: the typed book exactly when the status
/// signals success and the body parses as the order-book schema.
pub fn extract_orderbook(status: u16, body: Vec<u8>) -> (r: Result<
    models::OrderBook,
    ExtractError,
>)
    ensures
        r is Ok <==> status_is_success(status) && parsed_json(body@) && orderbook_shape(
            json_doc_of(body@),
        ),
        r matches Ok(t) ==> is_orderbook(json_doc_of(body@), t@),
        status_is_success(status) ==> !(r matches Err(ExtractError::Api(..))),
        status_is_success(status) && !parsed_json(body@) ==> r matches Err(
            ExtractError::Deserialization { .. },
        ),
        !status_is_success(status) ==> ((r matches Err(ExtractError::Api(..))) <==> parsed_json(
            body@,
        ) && error_envelope_shape(json_doc_of(body@))),
        r matches Err(ExtractError::Api(e)) ==> is_default_error(json_doc_of(body@), e),
        r matches Err(e) ==> keeps_original_bytes(&e, body@),
{
    if !is_success_status(status) {
        return Err(failure_from(body));
    }
    match json_parse(&body) {
        Ok(v) => match parse_orderbook(&v) {
            Some(t) => Ok(t),
            None => Err(
                ExtractError::Deserialization { bytes: body, diagnostic: schema_mismatch() },
            ),
        },
        Err(diagnostic) => Err(ExtractError::Deserialization { bytes: body, diagnostic }),
    }
}

/// Decodes the order book of one market: the typed book exactly when the
/// status signals success and the body parses as its schema.
pub fn extract_orderbook_exact_symbol(status: u16, body: Vec<u8>) -> (r: Result<
    models::OrderbookExactSymbol,
    ExtractError,
>)
    ensures
        r is Ok <==> status_is_success(status) && parsed_json(body@) && orderbook_exact_shape(
            json_doc_of(body@),
        ),
        r matches Ok(p) ==> is_orderbook_exact(json_doc_of(body@), p),
        status_is_success(status) ==> !(r matches Err(ExtractError::Api(..))),
        status_is_success(status) && !parsed_json(body@) ==> r matches Err(
            ExtractError::Deserialization { .. },
        ),
        !status_is_success(status) ==> ((r matches Err(ExtractError::Api(..))) <==> parsed_json(
            body@,
        ) && error_envelope_shape(json_doc_of(body@))),
        r matches Err(ExtractError::Api(e)) ==> is_default_error(json_doc_of(body@), e),
        r matches Err(e) ==> keeps_original_bytes(&e, body@),
{
    if !is_success_status(status) {
        return Err(failure_from(body));
    }
    match json_parse(&body) {
        Ok(v) => match parse_orderbook_exact_symbol(&v) {
            Some(p) => Ok(p),
            None => Err(
                ExtractError::Deserialization { bytes: body, diagnostic: schema_mismatch() },
            ),
        },
        Err(diagnostic) => Err(ExtractError::Deserialization { bytes: body, diagnostic }),
    }
}

/// Decodes the exchange's error envelope out of a failure body: the typed
/// envelope exactly when the body parses as one; otherwise a
/// deserialization error that keeps the bytes.
pub fn extract_error(body: Vec<u8>) -> (r: Result<Error, ExtractError>)
    ensures
        r is Ok <==> parsed_json(body@) && error_envelope_shape(json_doc_of(body@)),
        r matches Ok(envelope) ==> is_default_error(json_doc_of(body@), envelope.error),
        r matches Err(e) ==> keeps_original_bytes(&e, body@) && !(e is Api),
{
    match json_parse(&body) {
        Ok(v) => match parse_error_envelope(&v) {
            Some(envelope) => Ok(envelope),
            None => Err(
                ExtractError::Deserialization { bytes: body, diagnostic: schema_mismatch() },
            ),
        },
        Err(diagnostic) => Err(ExtractError::Deserialization { bytes: body, diagnostic }),
    }
}

/// Decodes a trading-commission response: the typed commission exactly when
/// the status signals success and the body parses as its schema.
pub fn extract_trading_commission(status: u16, body: Vec<u8>) -> (r: Result<
    models::TradingCommission,
    ExtractError,
>)
    ensures
        r is Ok <==> status_is_success(status) && parsed_json(body@) && commission_shape(
            json_doc_of(body@),
        ),
        r matches Ok(c) ==> is_commission(json_doc_of(body@), c),
        status_is_success(status) ==> !(r matches Err(ExtractError::Api(..))),
        status_is_success(status) && !parsed_json(body@) ==> r matches Err(
            ExtractError::Deserialization { .. },
        ),
        !status_is_success(status) ==> ((r matches Err(ExtractError::Api(..))) <==> parsed_json(
            body@,
        ) && error_envelope_shape(json_doc_of(body@))),
        r matches Err(ExtractError::Api(e)) ==> is_default_error(json_doc_of(body@), e),
        r matches Err(e) ==> keeps_original_bytes(&e, body@),
{
    if !is_success_status(status) {
        return Err(failure_from(body));
    }
    match json_parse(&body) {
        Ok(v) => match parse_trading_commission(&v) {
            Some(c) => Ok(c),
            None => Err(
                ExtractError::Deserialization { bytes: body, diagnostic: schema_mismatch() },
            ),
        },
        Err(diagnostic) => Err(ExtractError::Deserialization { bytes: body, diagnostic }),
    }
}

} // verus!
