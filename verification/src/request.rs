//! Assembly of signed request descriptors.
//!
//! A request is built from a base URL, literal and dynamic path segments,
//! optional query parameters and an optional serialized body. The canonical
//! message that is signed is the exact concatenation
//! `method ++ timestamp ++ path_with_query ++ body`, and the body bytes that
//! are signed are by construction the body bytes the descriptor carries.

use vstd::prelude::*;
use vstd::string::StrSliceExecFns;
use vstd::string::StringExecFns;
use crate::context::AuthContext;
use crate::context::auth_header_of;
use crate::error::RequestBuildError;
use crate::coin::CoinTable;
use crate::coin::Symbol;
use crate::coin::symbol_wire;
use crate::coin::legacy_coin_wire;
use crate::base::Side;
use crate::base::side_wire;
use crate::models::json_object;
use crate::models::json_member;
use crate::models::json_string_value;
use crate::text::json_plain;
use crate::typed;
use crate::text::dec_str_of;
use crate::text::u64_to_dec;
use crate::text::i64_to_dec;

verus! {

/// An HTTP method used by the exchange API.
#[derive(Clone, Copy, Debug, PartialEq, Eq, Structural)]
pub enum Method {
    Get,
    Post,
    Delete,
}

/// The uppercase wire string of a method, as it enters the canonical
/// message.
pub open spec fn method_wire(m: Method) -> Seq<char> {
    match m {
        Method::Get => "GET"@,
        Method::Post => "POST"@,
        Method::Delete => "DELETE"@,
    }
}

impl Method {
    /// The uppercase wire string of this method.
    pub fn to_string(self) -> (r: &'static str)
        ensures
            r@ == method_wire(self),
    {
        match self {
            Method::Get => "GET",
            Method::Post => "POST",
            Method::Delete => "DELETE",
        }
    }
}

/// A character that may stand in a path segment without changing the path
/// shape: ASCII letters and digits, and the unreserved marks.
pub open spec fn is_plain_char(c: char) -> bool {
    ('a' <= c && c <= 'z') || ('A' <= c && c <= 'Z') || ('0' <= c && c <= '9') || c == '-' || c
        == '_' || c == '.' || c == '~'
}

/// A path segment the builder accepts: non-empty, made of plain characters
/// only. A segment holding a path separator or any other delimiter is a
/// build-time error, never a silent truncation.
pub open spec fn valid_segment(s: Seq<char>) -> bool {
    s.len() > 0 && (forall|i: int| 0 <= i < s.len() ==> is_plain_char(s[i]))
}

/// A query value the builder accepts: plain characters and the comma that
/// joins multi-value fields. May be empty.
pub open spec fn valid_query_value(s: Seq<char>) -> bool {
    forall|i: int| 0 <= i < s.len() ==> is_plain_char(s[i]) || s[i] == ','
}

fn is_plain(c: char) -> (r: bool)
    ensures
        r == is_plain_char(c),
{
    ('a' <= c && c <= 'z') || ('A' <= c && c <= 'Z') || ('0' <= c && c <= '9') || c == '-' || c
        == '_' || c == '.' || c == '~'
}

/// Decides whether `s` may stand as a path segment.
pub fn is_valid_segment(s: &str) -> (r: bool)
    ensures
        r == valid_segment(s@),
{
    let len = s.unicode_len();
    if len == 0 {
        return false;
    }
    let mut i: usize = 0;
    while i < len
        invariant
            i <= len,
            len == s@.len(),
            forall|j: int| 0 <= j < i ==> is_plain_char(s@[j]),
        decreases len - i,
    {
        let c = s.get_char(i);
        if !is_plain(c) {
            return false;
        }
        i += 1;
    }
    true
}

/// Decides whether `s` may stand as a query value.
pub fn is_valid_query_value(s: &str) -> (r: bool)
    ensures
        r == valid_query_value(s@),
{
    let len = s.unicode_len();
    let mut i: usize = 0;
    while i < len
        invariant
            i <= len,
            len == s@.len(),
            forall|j: int| 0 <= j < i ==> is_plain_char(s@[j]) || s@[j] == ',',
        decreases len - i,
    {
        let c = s.get_char(i);
        if !is_plain(c) && c != ',' {
            return false;
        }
        i += 1;
    }
    true
}

/// The views of a list of path segments.
pub open spec fn seg_views(segments: Seq<&str>) -> Seq<Seq<char>> {
    segments.map_values(|s: &str| s@)
}

/// A base path extended by segments, each preceded by one `/`, in order.
pub open spec fn joined_path(base: Seq<char>, segs: Seq<Seq<char>>) -> Seq<char>
    decreases segs.len(),
{
    if segs.len() == 0 {
        base
    } else {
        joined_path(base, segs.drop_last()) + "/"@ + segs.last()
    }
}

/// Appends `segments` to `base_path`, one `/` before each; rejects any
/// segment that could change the path shape.
pub fn join_segments(base_path: &str, segments: &Vec<&str>) -> (r: Result<
    String,
    RequestBuildError,
>)
    ensures
        r is Ok <==> (forall|i: int|
            0 <= i < segments@.len() ==> valid_segment(#[trigger] segments@[i]@)),
        r matches Ok(p) ==> p@ == joined_path(base_path@, seg_views(segments@)),
        r matches Err(e) ==> e == RequestBuildError::InvalidPathSegment,
{
    let mut path = String::from_str(base_path);
    let n = segments.len();
    let mut i: usize = 0;
    while i < n
        invariant
            i <= n,
            n == segments@.len(),
            path@ == joined_path(base_path@, seg_views(segments@).take(i as int)),
            forall|j: int| 0 <= j < i ==> valid_segment(#[trigger] segments@[j]@),
        decreases n - i,
    {
        let seg = segments[i];
        if !is_valid_segment(seg) {
            return Err(RequestBuildError::InvalidPathSegment);
        }
        path.append("/");
        path.append(seg);
        proof {
            let views = seg_views(segments@);
            assert(views.take(i + 1).drop_last() =~= views.take(i as int));
            assert(views.take(i + 1).last() == segments@[i as int]@);
        }
        i += 1;
    }
    proof {
        assert(seg_views(segments@).take(n as int) =~= seg_views(segments@));
    }
    Ok(path)
}

/// One query pair as it appears on the wire.
pub open spec fn query_pair(key: Seq<char>, value: Seq<char>) -> Seq<char> {
    key + "="@ + value
}

/// The views of a list of query pairs.
pub open spec fn pair_views(pairs: Seq<(String, String)>) -> Seq<(Seq<char>, Seq<char>)> {
    pairs.map_values(|p: (String, String)| (p.0@, p.1@))
}

/// Query pairs joined by `&`, in the given order, with no trailing
/// delimiter.
pub open spec fn query_string(pairs: Seq<(Seq<char>, Seq<char>)>) -> Seq<char>
    decreases pairs.len(),
{
    if pairs.len() == 0 {
        Seq::empty()
    } else if pairs.len() == 1 {
        query_pair(pairs[0].0, pairs[0].1)
    } else {
        query_string(pairs.drop_last()) + "&"@ + query_pair(pairs.last().0, pairs.last().1)
    }
}

/// Writes the query pairs in order, `key=value` joined by `&`; rejects a key
/// that is not a plain segment or a value outside the accepted characters.
pub fn build_query(pairs: &Vec<(String, String)>) -> (r: Result<String, RequestBuildError>)
    ensures
        r is Ok <==> (forall|i: int|
            0 <= i < pairs@.len() ==> valid_segment((#[trigger] pairs@[i]).0@)
                && valid_query_value(pairs@[i].1@)),
        r matches Ok(q) ==> q@ == query_string(pair_views(pairs@)),
        r matches Err(e) ==> e == RequestBuildError::InvalidQueryValue,
{
    let mut query = String::new();
    let n = pairs.len();
    let mut i: usize = 0;
    while i < n
        invariant
            i <= n,
            n == pairs@.len(),
            query@ == query_string(pair_views(pairs@).take(i as int)),
            forall|j: int|
                0 <= j < i ==> valid_segment((#[trigger] pairs@[j]).0@) && valid_query_value(
                    pairs@[j].1@,
                ),
        decreases n - i,
    {
        let pair = &pairs[i];
        let key_ok = is_valid_segment(pair.0.as_str());
        let value_ok = is_valid_query_value(pair.1.as_str());
        if !key_ok || !value_ok {
            return Err(RequestBuildError::InvalidQueryValue);
        }
        if i > 0 {
            query.append("&");
        }
        query.append(pair.0.as_str());
        query.append("=");
        query.append(pair.1.as_str());
        proof {
            let views = pair_views(pairs@);
            assert(views.take(i + 1).drop_last() =~= views.take(i as int));
            assert(views.take(i + 1).last() == (pairs@[i as int].0@, pairs@[i as int].1@));
        }
        i += 1;
    }
    proof {
        assert(pair_views(pairs@).take(n as int) =~= pair_views(pairs@));
    }
    Ok(query)
}

/// A path and a query joined into the part of the URL that is signed: the
/// `?` appears only when there is a query.
pub open spec fn path_with_query_of(path: Seq<char>, query: Seq<char>) -> Seq<char> {
    if query.len() == 0 {
        path
    } else {
        path + "?"@ + query
    }
}

/// The canonical message: method, timestamp, path with query and body
/// concatenated with no separators. This is the exact byte sequence that is
/// signed.
pub open spec fn canonical_message_of(
    method: Seq<char>,
    timestamp: Seq<char>,
    path_with_query: Seq<char>,
    body: Seq<char>,
) -> Seq<char> {
    method + timestamp + path_with_query + body
}

/// Builds the canonical message for one request.
pub fn get_message(method: Method, timestamp: &str, path_with_query: &str, body: &str) -> (r:
    String)
    ensures
        r@ == canonical_message_of(method_wire(method), timestamp@, path_with_query@, body@),
{
    let mut message = String::from_str(method.to_string());
    message.append(timestamp);
    message.append(path_with_query);
    message.append(body);
    proof {
        assert(message@ =~= canonical_message_of(
            method_wire(method),
            timestamp@,
            path_with_query@,
            body@,
        ));
    }
    message
}

/// Every character of a decimal rendering is a plain character.
pub proof fn lemma_dec_str_plain(n: nat)
    ensures
        dec_str_of(n).len() > 0,
        forall|i: int| 0 <= i < dec_str_of(n).len() ==> is_plain_char(dec_str_of(n)[i]),
    decreases n,
{
    if n < 10 {
        assert(dec_str_of(n) == seq![crate::text::dec_digit(n)]);
    } else {
        lemma_dec_str_plain(n / 10);
        assert(dec_str_of(n) == dec_str_of(n / 10) + seq![crate::text::dec_digit(n % 10)]);
    }
}

/// A string without the characters that would start a query or a fragment.
pub open spec fn free_of_query_marks(s: Seq<char>) -> bool {
    forall|i: int| 0 <= i < s.len() ==> s[i] != '?' && s[i] != '#'
}

fn has_no_query_marks(s: &str) -> (r: bool)
    ensures
        r == free_of_query_marks(s@),
{
    let len = s.unicode_len();
    let mut i: usize = 0;
    while i < len
        invariant
            i <= len,
            len == s@.len(),
            forall|j: int| 0 <= j < i ==> s@[j] != '?' && s@[j] != '#',
        decreases len - i,
    {
        let c = s.get_char(i);
        if c == '?' || c == '#' {
            return false;
        }
        i += 1;
    }
    true
}

/// Where requests are sent: the origin (scheme and authority) and the fixed
/// path prefix that every resource path is appended to.
pub struct BaseUrl {
    origin: String,
    path: String,
}

impl BaseUrl {
    /// The scheme and authority part, which is not signed.
    pub closed spec fn spec_origin(&self) -> Seq<char> {
        self.origin@
    }

    /// The fixed path prefix, which is part of every signed path.
    pub closed spec fn spec_path(&self) -> Seq<char> {
        self.path@
    }

    /// A base URL the builder can extend: a non-empty origin, an absolute or
    /// empty path prefix, and no query or fragment delimiter anywhere.
    pub open spec fn wf(&self) -> bool {
        &&& self.spec_origin().len() > 0
        &&& free_of_query_marks(self.spec_origin())
        &&& free_of_query_marks(self.spec_path())
        &&& (self.spec_path().len() == 0 || self.spec_path()[0] == '/')
    }

    /// Builds a base URL from its two parts, rejecting parts that could
    /// change the shape of the requests built on them.
    pub fn new(origin: String, path: String) -> (r: Result<BaseUrl, RequestBuildError>)
        ensures
            r is Ok <==> {
                &&& origin@.len() > 0
                &&& free_of_query_marks(origin@)
                &&& free_of_query_marks(path@)
                &&& (path@.len() == 0 || path@[0] == '/')
            },
            r matches Ok(b) ==> b.wf() && b.spec_origin() == origin@ && b.spec_path() == path@,
            r matches Err(e) ==> e == RequestBuildError::InvalidBaseUrl,
    {
        if origin.as_str().unicode_len() == 0 {
            return Err(RequestBuildError::InvalidBaseUrl);
        }
        if !has_no_query_marks(origin.as_str()) || !has_no_query_marks(path.as_str()) {
            return Err(RequestBuildError::InvalidBaseUrl);
        }
        if path.as_str().unicode_len() > 0 && path.as_str().get_char(0) != '/' {
            return Err(RequestBuildError::InvalidBaseUrl);
        }
        Ok(BaseUrl { origin, path })
    }

    /// The origin as a string slice.
    pub fn origin_str(&self) -> (r: &str)
        ensures
            r@ == self.spec_origin(),
    {
        self.origin.as_str()
    }

    /// The path prefix as a string slice.
    pub fn path_str(&self) -> (r: &str)
        ensures
            r@ == self.spec_path(),
    {
        self.path.as_str()
    }
}

/// The body a descriptor carries, as the character sequence that was signed;
/// a missing body signs as the empty string.
pub open spec fn opt_body_view(body: &Option<String>) -> Seq<char> {
    match body {
        Some(b) => b@,
        None => Seq::empty(),
    }
}

/// A fully formed request, ready for a transport: everything the remote end
/// sees, with the signature already computed over exactly these parts.
pub struct RequestDescriptor {
    pub method: Method,
    /// The full URL: origin plus `path_with_query`.
    pub url: String,
    /// The signed part of the URL.
    pub path_with_query: String,
    /// The timestamp the signature was computed with; `None` on public,
    /// unsigned requests.
    pub timestamp: Option<String>,
    /// The `Authorization` header value; `None` on public requests.
    pub authorization: Option<String>,
    /// The body to transmit: byte-identical to the body that was signed.
    pub body: Option<String>,
}

impl RequestDescriptor {
    /// The `Accept` header, set on every request.
    pub fn accept(&self) -> (r: &'static str)
        ensures
            r@ == "application/json"@,
    {
        "application/json"
    }

    /// The `Content-Type` header: present exactly when a body is present.
    pub fn content_type(&self) -> (r: Option<&'static str>)
        ensures
            r is Some <==> self.body is Some,
            r matches Some(ct) ==> ct@ == "application/json"@,
    {
        match &self.body {
            Some(_) => Some("application/json"),
            None => None,
        }
    }
}

/// Relies on chrono's `Utc::now`: the current Unix timestamp in whole
/// seconds. The value depends on the clock, so nothing is promised of it.
#[verifier::external_body]
fn unix_timestamp_now() -> i64 {
    chrono::Utc::now().timestamp()
}

/// Reads the clock once and renders the Unix timestamp in decimal. A caller
/// must reuse one such string for both signing and sending; recomputing it
/// between the two would desynchronize signature and message.
pub fn timestamp_now() -> (r: String)
    ensures
        exists|n: int| r@ == crate::text::dec_str_of_int(n),
{
    let now = unix_timestamp_now();
    let r = i64_to_dec(now);
    proof {
        assert(r@ == crate::text::dec_str_of_int(now as int));
    }
    r
}

/// Assembles and signs one request: joins the path, writes the query,
/// computes the canonical message from exactly the parts that will be sent,
/// and signs it with `timestamp`.
pub fn build_signed_request(
    ctx: &AuthContext,
    base: &BaseUrl,
    method: Method,
    segments: &Vec<&str>,
    query_pairs: &Vec<(String, String)>,
    body: Option<String>,
    timestamp: &str,
) -> (r: Result<RequestDescriptor, RequestBuildError>)
    requires
        base.wf(),
    ensures
        r is Ok <==> {
            &&& (forall|i: int|
                0 <= i < segments@.len() ==> valid_segment(#[trigger] segments@[i]@))
            &&& (forall|i: int|
                0 <= i < query_pairs@.len() ==> valid_segment((#[trigger] query_pairs@[i]).0@)
                    && valid_query_value(query_pairs@[i].1@))
        },
        r matches Ok(d) ==> ({
            let pwq = path_with_query_of(
                joined_path(base.spec_path(), seg_views(segments@)),
                query_string(pair_views(query_pairs@)),
            );
            &&& d.method == method
            &&& d.path_with_query@ == pwq
            &&& d.url@ == base.spec_origin() + pwq
            &&& d.timestamp matches Some(t) && t@ == timestamp@
            &&& d.body == body
            &&& d.authorization matches Some(a) && a@ == auth_header_of(
                ctx.spec_public_key(),
                ctx.spec_private_key(),
                timestamp@,
                canonical_message_of(method_wire(method), timestamp@, pwq, opt_body_view(&body)),
            )
        }),
{
    let path = match join_segments(base.path_str(), segments) {
        Ok(p) => p,
        Err(e) => { return Err(e) },
    };
    let query = match build_query(query_pairs) {
        Ok(q) => q,
        Err(e) => { return Err(e) },
    };
    let mut path_with_query = path;
    if query.as_str().unicode_len() > 0 {
        path_with_query.append("?");
        path_with_query.append(query.as_str());
    }
    let body_str: &str = match &body {
        Some(b) => b.as_str(),
        None => "",
    };
    proof {
        reveal_strlit("");
        assert(""@ =~= Seq::<char>::empty());
    }
    let message = get_message(method, timestamp, path_with_query.as_str(), body_str);
    let authorization = ctx.sign(message, String::from_str(timestamp));
    let mut url = String::from_str(base.origin_str());
    url.append(path_with_query.as_str());
    Ok(RequestDescriptor {
        method,
        url,
        path_with_query,
        timestamp: Some(String::from_str(timestamp)),
        authorization: Some(authorization),
        body,
    })
}

/// Assembles one unsigned request against a public endpoint: same path and
/// query rules as the signed form, no timestamp, no authorization, no body.
pub fn build_public_request(
    base: &BaseUrl,
    segments: &Vec<&str>,
    query_pairs: &Vec<(String, String)>,
) -> (r: Result<RequestDescriptor, RequestBuildError>)
    requires
        base.wf(),
    ensures
        r is Ok <==> {
            &&& (forall|i: int|
                0 <= i < segments@.len() ==> valid_segment(#[trigger] segments@[i]@))
            &&& (forall|i: int|
                0 <= i < query_pairs@.len() ==> valid_segment((#[trigger] query_pairs@[i]).0@)
                    && valid_query_value(query_pairs@[i].1@))
        },
        r matches Ok(d) ==> ({
            let pwq = path_with_query_of(
                joined_path(base.spec_path(), seg_views(segments@)),
                query_string(pair_views(query_pairs@)),
            );
            &&& d.method == Method::Get
            &&& d.path_with_query@ == pwq
            &&& d.url@ == base.spec_origin() + pwq
            &&& d.timestamp is None
            &&& d.body is None
            &&& d.authorization is None
        }),
{
    let path = match join_segments(base.path_str(), segments) {
        Ok(p) => p,
        Err(e) => { return Err(e) },
    };
    let query = match build_query(query_pairs) {
        Ok(q) => q,
        Err(e) => { return Err(e) },
    };
    let mut path_with_query = path;
    if query.as_str().unicode_len() > 0 {
        path_with_query.append("?");
        path_with_query.append(query.as_str());
    }
    let mut url = String::from_str(base.origin_str());
    url.append(path_with_query.as_str());
    Ok(RequestDescriptor {
        method: Method::Get,
        url,
        path_with_query,
        timestamp: None,
        authorization: None,
        body: None,
    })
}

/// The optional `symbol` filter of the order endpoints.
pub open spec fn opt_symbol_query(t: &CoinTable, symbol: Option<&Symbol>) -> Seq<char> {
    match symbol {
        Some(s) => query_pair("symbol"@, symbol_wire(t, s)),
        None => Seq::empty(),
    }
}

/// The optional `wait` parameter of the order lookup endpoint.
pub open spec fn opt_wait_query(wait: Option<u64>) -> Seq<char> {
    match wait {
        Some(n) => query_pair("wait"@, dec_str_of(n as nat)),
        None => Seq::empty(),
    }
}

/// The signed request reading the main account balance:
/// `GET {base}/account/balance`.
pub fn account_balance_request(ctx: &AuthContext, base: &BaseUrl, timestamp: &str) -> (r: Result<
    RequestDescriptor,
    RequestBuildError,
>)
    requires
        base.wf(),
    ensures
        r is Ok,
        r matches Ok(d) ==> ({
            let pwq = joined_path(base.spec_path(), seq!["account"@, "balance"@]);
            &&& d.method == Method::Get
            &&& d.path_with_query@ == pwq
            &&& d.url@ == base.spec_origin() + pwq
            &&& d.timestamp matches Some(t) && t@ == timestamp@
            &&& d.body is None
            &&& d.authorization matches Some(a) && a@ == auth_header_of(
                ctx.spec_public_key(),
                ctx.spec_private_key(),
                timestamp@,
                canonical_message_of(method_wire(Method::Get), timestamp@, pwq, Seq::empty()),
            )
        }),
{
    let segments: Vec<&str> = vec!["account", "balance"];
    let query: Vec<(String, String)> = Vec::new();
    let r = build_signed_request(ctx, base, Method::Get, &segments, &query, None, timestamp);
    proof {
        reveal_strlit("account");
        reveal_strlit("balance");
        assert(valid_segment("account"@));
        assert(valid_segment("balance"@));
        assert(seg_views(segments@) =~= seq!["account"@, "balance"@]);
        assert(pair_views(query@) =~= Seq::<(Seq<char>, Seq<char>)>::empty());
    }
    r
}

/// The signed request reading the trading balance:
/// `GET {base}/trading/balance`.
pub fn trading_balance_request(ctx: &AuthContext, base: &BaseUrl, timestamp: &str) -> (r: Result<
    RequestDescriptor,
    RequestBuildError,
>)
    requires
        base.wf(),
    ensures
        r is Ok,
        r matches Ok(d) ==> ({
            let pwq = joined_path(base.spec_path(), seq!["trading"@, "balance"@]);
            &&& d.method == Method::Get
            &&& d.path_with_query@ == pwq
            &&& d.url@ == base.spec_origin() + pwq
            &&& d.timestamp matches Some(t) && t@ == timestamp@
            &&& d.body is None
            &&& d.authorization matches Some(a) && a@ == auth_header_of(
                ctx.spec_public_key(),
                ctx.spec_private_key(),
                timestamp@,
                canonical_message_of(method_wire(Method::Get), timestamp@, pwq, Seq::empty()),
            )
        }),
{
    let segments: Vec<&str> = vec!["trading", "balance"];
    let query: Vec<(String, String)> = Vec::new();
    let r = build_signed_request(ctx, base, Method::Get, &segments, &query, None, timestamp);
    proof {
        reveal_strlit("trading");
        reveal_strlit("balance");
        assert(valid_segment("trading"@));
        assert(valid_segment("balance"@));
        assert(seg_views(segments@) =~= seq!["trading"@, "balance"@]);
        assert(pair_views(query@) =~= Seq::<(Seq<char>, Seq<char>)>::empty());
    }
    r
}

/// The signed request listing active orders, optionally filtered to one
/// symbol: `GET {base}/order[?symbol={wire}]`.
pub fn active_orders_request(
    ctx: &AuthContext,
    base: &BaseUrl,
    table: &CoinTable,
    symbol: Option<&Symbol>,
    timestamp: &str,
) -> (r: Result<RequestDescriptor, RequestBuildError>)
    requires
        base.wf(),
    ensures
        r is Ok <==> (symbol matches Some(s) ==> valid_query_value(symbol_wire(table, s))),
        r matches Ok(d) ==> ({
            let pwq = path_with_query_of(
                joined_path(base.spec_path(), seq!["order"@]),
                opt_symbol_query(table, symbol),
            );
            &&& d.method == Method::Get
            &&& d.path_with_query@ == pwq
            &&& d.url@ == base.spec_origin() + pwq
            &&& d.timestamp matches Some(t) && t@ == timestamp@
            &&& d.body is None
            &&& d.authorization matches Some(a) && a@ == auth_header_of(
                ctx.spec_public_key(),
                ctx.spec_private_key(),
                timestamp@,
                canonical_message_of(method_wire(Method::Get), timestamp@, pwq, Seq::empty()),
            )
        }),
{
    let segments: Vec<&str> = vec!["order"];
    let mut query: Vec<(String, String)> = Vec::new();
    match symbol {
        Some(s) => {
            let wire = s.to_wire(table);
            query.push((String::from_str("symbol"), wire));
        },
        None => {},
    }
    let r = build_signed_request(ctx, base, Method::Get, &segments, &query, None, timestamp);
    proof {
        reveal_strlit("order");
        reveal_strlit("symbol");
        assert(valid_segment("order"@));
        assert(valid_segment("symbol"@));
        assert(seg_views(segments@) =~= seq!["order"@]);
        match symbol {
            Some(s) => {
                assert(pair_views(query@) =~= seq![("symbol"@, symbol_wire(table, s))]);
            },
            None => {
                assert(pair_views(query@) =~= Seq::<(Seq<char>, Seq<char>)>::empty());
            },
        }
    }
    r
}

/// The signed request reading one order by its client order id, optionally
/// long-polling: `GET {base}/order/{id}[?wait={ms}]`.
pub fn order_by_id_request(
    ctx: &AuthContext,
    base: &BaseUrl,
    id: &str,
    wait: Option<u64>,
    timestamp: &str,
) -> (r: Result<RequestDescriptor, RequestBuildError>)
    requires
        base.wf(),
    ensures
        r is Ok <==> valid_segment(id@),
        r matches Ok(d) ==> ({
            let pwq = path_with_query_of(
                joined_path(base.spec_path(), seq!["order"@, id@]),
                opt_wait_query(wait),
            );
            &&& d.method == Method::Get
            &&& d.path_with_query@ == pwq
            &&& d.url@ == base.spec_origin() + pwq
            &&& d.timestamp matches Some(t) && t@ == timestamp@
            &&& d.body is None
            &&& d.authorization matches Some(a) && a@ == auth_header_of(
                ctx.spec_public_key(),
                ctx.spec_private_key(),
                timestamp@,
                canonical_message_of(method_wire(Method::Get), timestamp@, pwq, Seq::empty()),
            )
        }),
{
    let segments: Vec<&str> = vec!["order", id];
    let mut query: Vec<(String, String)> = Vec::new();
    match wait {
        Some(n) => {
            query.push((String::from_str("wait"), u64_to_dec(n)));
        },
        None => {},
    }
    let r = build_signed_request(ctx, base, Method::Get, &segments, &query, None, timestamp);
    proof {
        reveal_strlit("order");
        reveal_strlit("wait");
        assert(valid_segment("order"@));
        assert(valid_segment("wait"@));
        assert(seg_views(segments@) =~= seq!["order"@, id@]);
        match wait {
            Some(n) => {
                lemma_dec_str_plain(n as nat);
                assert(pair_views(query@) =~= seq![("wait"@, dec_str_of(n as nat))]);
            },
            None => {
                assert(pair_views(query@) =~= Seq::<(Seq<char>, Seq<char>)>::empty());
            },
        }
    }
    r
}

/// The signed request cancelling all active orders, optionally only for one
/// symbol: `DELETE {base}/order[?symbol={wire}]`.
pub fn cancel_all_orders_request(
    ctx: &AuthContext,
    base: &BaseUrl,
    table: &CoinTable,
    symbol: Option<&Symbol>,
    timestamp: &str,
) -> (r: Result<RequestDescriptor, RequestBuildError>)
    requires
        base.wf(),
    ensures
        r is Ok <==> (symbol matches Some(s) ==> valid_query_value(symbol_wire(table, s))),
        r matches Ok(d) ==> ({
            let pwq = path_with_query_of(
                joined_path(base.spec_path(), seq!["order"@]),
                opt_symbol_query(table, symbol),
            );
            &&& d.method == Method::Delete
            &&& d.path_with_query@ == pwq
            &&& d.url@ == base.spec_origin() + pwq
            &&& d.timestamp matches Some(t) && t@ == timestamp@
            &&& d.body is None
            &&& d.authorization matches Some(a) && a@ == auth_header_of(
                ctx.spec_public_key(),
                ctx.spec_private_key(),
                timestamp@,
                canonical_message_of(method_wire(Method::Delete), timestamp@, pwq, Seq::empty()),
            )
        }),
{
    let segments: Vec<&str> = vec!["order"];
    let mut query: Vec<(String, String)> = Vec::new();
    match symbol {
        Some(s) => {
            let wire = s.to_wire(table);
            query.push((String::from_str("symbol"), wire));
        },
        None => {},
    }
    let r = build_signed_request(ctx, base, Method::Delete, &segments, &query, None, timestamp);
    proof {
        reveal_strlit("order");
        reveal_strlit("symbol");
        assert(valid_segment("order"@));
        assert(valid_segment("symbol"@));
        assert(seg_views(segments@) =~= seq!["order"@]);
        match symbol {
            Some(s) => {
                assert(pair_views(query@) =~= seq![("symbol"@, symbol_wire(table, s))]);
            },
            None => {
                assert(pair_views(query@) =~= Seq::<(Seq<char>, Seq<char>)>::empty());
            },
        }
    }
    r
}

/// The signed request cancelling one order by its client order id:
/// `DELETE {base}/order/{id}`.
pub fn cancel_order_by_id_request(
    ctx: &AuthContext,
    base: &BaseUrl,
    id: &str,
    timestamp: &str,
) -> (r: Result<RequestDescriptor, RequestBuildError>)
    requires
        base.wf(),
    ensures
        r is Ok <==> valid_segment(id@),
        r matches Ok(d) ==> ({
            let pwq = joined_path(base.spec_path(), seq!["order"@, id@]);
            &&& d.method == Method::Delete
            &&& d.path_with_query@ == pwq
            &&& d.url@ == base.spec_origin() + pwq
            &&& d.timestamp matches Some(t) && t@ == timestamp@
            &&& d.body is None
            &&& d.authorization matches Some(a) && a@ == auth_header_of(
                ctx.spec_public_key(),
                ctx.spec_private_key(),
                timestamp@,
                canonical_message_of(method_wire(Method::Delete), timestamp@, pwq, Seq::empty()),
            )
        }),
{
    let segments: Vec<&str> = vec!["order", id];
    let query: Vec<(String, String)> = Vec::new();
    let r = build_signed_request(ctx, base, Method::Delete, &segments, &query, None, timestamp);
    proof {
        reveal_strlit("order");
        assert(valid_segment("order"@));
        assert(seg_views(segments@) =~= seq!["order"@, id@]);
        assert(pair_views(query@) =~= Seq::<(Seq<char>, Seq<char>)>::empty());
    }
    r
}

/// The signed request reading the trading commission of one symbol:
/// `GET {base}/trading/fee/{wire}`.
pub fn trading_commission_request(
    ctx: &AuthContext,
    base: &BaseUrl,
    table: &CoinTable,
    symbol: &Symbol,
    timestamp: &str,
) -> (r: Result<RequestDescriptor, RequestBuildError>)
    requires
        base.wf(),
    ensures
        r is Ok <==> valid_segment(symbol_wire(table, symbol)),
        r matches Ok(d) ==> ({
            let pwq = joined_path(
                base.spec_path(),
                seq!["trading"@, "fee"@, symbol_wire(table, symbol)],
            );
            &&& d.method == Method::Get
            &&& d.path_with_query@ == pwq
            &&& d.url@ == base.spec_origin() + pwq
            &&& d.timestamp matches Some(t) && t@ == timestamp@
            &&& d.body is None
            &&& d.authorization matches Some(a) && a@ == auth_header_of(
                ctx.spec_public_key(),
                ctx.spec_private_key(),
                timestamp@,
                canonical_message_of(method_wire(Method::Get), timestamp@, pwq, Seq::empty()),
            )
        }),
{
    let wire = symbol.to_wire(table);
    let segments: Vec<&str> = vec!["trading", "fee", wire.as_str()];
    let query: Vec<(String, String)> = Vec::new();
    let r = build_signed_request(ctx, base, Method::Get, &segments, &query, None, timestamp);
    proof {
        reveal_strlit("trading");
        reveal_strlit("fee");
        assert(valid_segment("trading"@));
        assert(valid_segment("fee"@));
        assert(seg_views(segments@) =~= seq!["trading"@, "fee"@, symbol_wire(table, symbol)]);
        assert(pair_views(query@) =~= Seq::<(Seq<char>, Seq<char>)>::empty());
    }
    r
}

/// The unsigned request listing all currencies:
/// `GET {base}/public/currency`.
pub fn all_currencies_request(base: &BaseUrl) -> (r: Result<RequestDescriptor, RequestBuildError>)
    requires
        base.wf(),
    ensures
        r is Ok,
        r matches Ok(d) ==> ({
            let pwq = joined_path(base.spec_path(), seq!["public"@, "currency"@]);
            &&& d.method == Method::Get
            &&& d.path_with_query@ == pwq
            &&& d.url@ == base.spec_origin() + pwq
            &&& d.authorization is None
            &&& d.timestamp is None
            &&& d.body is None
        }),
{
    let segments: Vec<&str> = vec!["public", "currency"];
    let query: Vec<(String, String)> = Vec::new();
    let r = build_public_request(base, &segments, &query);
    proof {
        reveal_strlit("public");
        reveal_strlit("currency");
        assert(valid_segment("public"@));
        assert(valid_segment("currency"@));
        assert(seg_views(segments@) =~= seq!["public"@, "currency"@]);
        assert(pair_views(query@) =~= Seq::<(Seq<char>, Seq<char>)>::empty());
    }
    r
}

/// The unsigned request listing all symbols: `GET {base}/public/symbol`.
pub fn all_symbols_request(base: &BaseUrl) -> (r: Result<RequestDescriptor, RequestBuildError>)
    requires
        base.wf(),
    ensures
        r is Ok,
        r matches Ok(d) ==> ({
            let pwq = joined_path(base.spec_path(), seq!["public"@, "symbol"@]);
            &&& d.method == Method::Get
            &&& d.path_with_query@ == pwq
            &&& d.url@ == base.spec_origin() + pwq
            &&& d.authorization is None
            &&& d.timestamp is None
            &&& d.body is None
        }),
{
    let segments: Vec<&str> = vec!["public", "symbol"];
    let query: Vec<(String, String)> = Vec::new();
    let r = build_public_request(base, &segments, &query);
    proof {
        reveal_strlit("public");
        reveal_strlit("symbol");
        assert(valid_segment("public"@));
        assert(valid_segment("symbol"@));
        assert(seg_views(segments@) =~= seq!["public"@, "symbol"@]);
        assert(pair_views(query@) =~= Seq::<(Seq<char>, Seq<char>)>::empty());
    }
    r
}

/// Items joined by commas, in order, with no trailing comma.
pub open spec fn comma_joined(items: Seq<Seq<char>>) -> Seq<char>
    decreases items.len(),
{
    if items.len() == 0 {
        Seq::empty()
    } else if items.len() == 1 {
        items[0]
    } else {
        comma_joined(items.drop_last()) + ","@ + items.last()
    }
}

/// The wire strings of a list of symbols under one code table.
pub open spec fn symbol_wires(t: &CoinTable, symbols: Seq<Symbol>) -> Seq<Seq<char>> {
    symbols.map_values(|s: Symbol| symbol_wire(t, &s))
}

/// Joins the wire strings of `symbols` with commas, preserving the caller's
/// order.
pub fn comma_join_symbols(table: &CoinTable, symbols: &Vec<Symbol>) -> (r: String)
    ensures
        r@ == comma_joined(symbol_wires(table, symbols@)),
{
    let mut joined = String::new();
    let n = symbols.len();
    let mut i: usize = 0;
    while i < n
        invariant
            i <= n,
            n == symbols@.len(),
            joined@ == comma_joined(symbol_wires(table, symbols@).take(i as int)),
        decreases n - i,
    {
        let s = &symbols[i];
        let wire = s.to_wire(table);
        if i > 0 {
            joined.append(",");
        }
        joined.append(wire.as_str());
        proof {
            let wires = symbol_wires(table, symbols@);
            assert(wires.take(i + 1).drop_last() =~= wires.take(i as int));
            assert(wires.take(i + 1).last() == symbol_wire(table, &symbols@[i as int]));
        }
        i += 1;
    }
    proof {
        assert(symbol_wires(table, symbols@).take(n as int) =~= symbol_wires(table, symbols@));
    }
    joined
}

/// The query of the order-book depth endpoint: the `symbols` filter first
/// when supplied, then the `limit`, joined by `&`.
pub open spec fn orderbook_query_of(limit: Option<u64>, wires: Option<Seq<Seq<char>>>) -> Seq<
    char,
> {
    let symbols_part = match wires {
        Some(ws) => query_pair("symbols"@, comma_joined(ws)),
        None => Seq::empty(),
    };
    let limit_part = match limit {
        Some(n) => query_pair("limit"@, dec_str_of(n as nat)),
        None => Seq::empty(),
    };
    if wires is Some && limit is Some {
        symbols_part + "&"@ + limit_part
    } else {
        symbols_part + limit_part
    }
}

/// The wire strings of an optional symbol list.
pub open spec fn opt_symbol_wires(t: &CoinTable, symbols: Option<&Vec<Symbol>>) -> Option<
    Seq<Seq<char>>,
> {
    match symbols {
        Some(v) => Some(symbol_wires(t, v@)),
        None => None,
    }
}

/// Writes the order-book query for the supplied optional parameters:
/// `symbols` joined by commas and `limit`, in that order, `&`-separated, no
/// trailing delimiter. Rejects a symbol whose wire form cannot stand in a
/// query.
pub fn build_orderbook_query(
    table: &CoinTable,
    limit: Option<u64>,
    symbols: Option<&Vec<Symbol>>,
) -> (r: Result<String, RequestBuildError>)
    ensures
        r is Ok <==> (symbols matches Some(v) ==> valid_query_value(
            comma_joined(symbol_wires(table, v@)),
        )),
        r matches Ok(q) ==> q@ == orderbook_query_of(limit, opt_symbol_wires(table, symbols)),
        r matches Err(e) ==> e == RequestBuildError::InvalidQueryValue,
{
    let mut pairs: Vec<(String, String)> = Vec::new();
    match symbols {
        Some(v) => {
            let joined = comma_join_symbols(table, v);
            pairs.push((String::from_str("symbols"), joined));
        },
        None => {},
    }
    match limit {
        Some(n) => {
            pairs.push((String::from_str("limit"), u64_to_dec(n)));
        },
        None => {},
    }
    let r = build_query(&pairs);
    proof {
        reveal_strlit("symbols");
        reveal_strlit("limit");
        assert(valid_segment("symbols"@));
        assert(valid_segment("limit"@));
        match limit {
            Some(n) => lemma_dec_str_plain(n as nat),
            None => {},
        }
        let wires = opt_symbol_wires(table, symbols);
        match (symbols, limit) {
            (Some(v), Some(n)) => {
                let pa = ("symbols"@, comma_joined(symbol_wires(table, v@)));
                let pb = ("limit"@, dec_str_of(n as nat));
                let p = pair_views(pairs@);
                assert(p =~= seq![pa, pb]);
                assert(p.drop_last() =~= seq![pa]);
                assert(query_string(seq![pa]) == query_pair(pa.0, pa.1));
                assert(query_string(p) == query_string(p.drop_last()) + "&"@ + query_pair(
                    pb.0,
                    pb.1,
                ));
                assert(query_string(p) =~= orderbook_query_of(limit, wires));
            },
            (Some(v), None) => {
                let pa = ("symbols"@, comma_joined(symbol_wires(table, v@)));
                assert(pair_views(pairs@) =~= seq![pa]);
                assert(query_string(pair_views(pairs@)) =~= orderbook_query_of(limit, wires));
            },
            (None, Some(n)) => {
                let pb = ("limit"@, dec_str_of(n as nat));
                assert(pair_views(pairs@) =~= seq![pb]);
                assert(query_string(pair_views(pairs@)) =~= orderbook_query_of(limit, wires));
            },
            (None, None) => {
                assert(pair_views(pairs@) =~= Seq::<(Seq<char>, Seq<char>)>::empty());
                assert(query_string(pair_views(pairs@)) =~= orderbook_query_of(limit, wires));
            },
        }
    }
    r
}

/// The unsigned request reading the order book of several markets:
/// `GET {base}/public/orderbook[?symbols={a,b}][&limit={n}]`.
pub fn orderbook_request(
    base: &BaseUrl,
    table: &CoinTable,
    limit: Option<u64>,
    symbols: Option<&Vec<Symbol>>,
) -> (r: Result<RequestDescriptor, RequestBuildError>)
    requires
        base.wf(),
    ensures
        r is Ok <==> (symbols matches Some(v) ==> valid_query_value(
            comma_joined(symbol_wires(table, v@)),
        )),
        r matches Ok(d) ==> ({
            let pwq = path_with_query_of(
                joined_path(base.spec_path(), seq!["public"@, "orderbook"@]),
                orderbook_query_of(limit, opt_symbol_wires(table, symbols)),
            );
            &&& d.method == Method::Get
            &&& d.path_with_query@ == pwq
            &&& d.url@ == base.spec_origin() + pwq
            &&& d.authorization is None
            &&& d.timestamp is None
            &&& d.body is None
        }),
{
    let query = match build_orderbook_query(table, limit, symbols) {
        Ok(q) => q,
        Err(e) => { return Err(e) },
    };
    let segments: Vec<&str> = vec!["public", "orderbook"];
    let mut path = match join_segments(base.path_str(), &segments) {
        Ok(p) => p,
        Err(e) => {
            proof {
                reveal_strlit("public");
                reveal_strlit("orderbook");
                assert(valid_segment("public"@));
                assert(valid_segment("orderbook"@));
            }
            return Err(e);
        },
    };
    if query.as_str().unicode_len() > 0 {
        path.append("?");
        path.append(query.as_str());
    }
    let mut url = String::from_str(base.origin_str());
    url.append(path.as_str());
    proof {
        reveal_strlit("public");
        reveal_strlit("orderbook");
        assert(seg_views(segments@) =~= seq!["public"@, "orderbook"@]);
    }
    Ok(RequestDescriptor {
        method: Method::Get,
        url,
        path_with_query: path,
        timestamp: None,
        authorization: None,
        body: None,
    })
}

/// The query of the single-market depth endpoint: `volume` takes precedence
/// over `limit` when both are given.
pub open spec fn depth_query_of(limit: Option<u64>, volume: Option<Seq<char>>) -> Seq<char> {
    match volume {
        Some(v) => query_pair("volume"@, v),
        None => match limit {
            Some(n) => query_pair("limit"@, dec_str_of(n as nat)),
            None => Seq::empty(),
        },
    }
}

/// The view of an optional string slice.
pub open spec fn opt_str_view(s: Option<&str>) -> Option<Seq<char>> {
    match s {
        Some(v) => Some(v@),
        None => None,
    }
}

/// The unsigned request reading the order book of one market:
/// `GET {base}/public/orderbook/{wire}[?volume={v} | ?limit={n}]`, where a
/// supplied `volume` takes precedence over `limit`.
pub fn orderbook_exact_symbol_request(
    base: &BaseUrl,
    table: &CoinTable,
    symbol: &Symbol,
    limit: Option<u64>,
    volume: Option<&str>,
) -> (r: Result<RequestDescriptor, RequestBuildError>)
    requires
        base.wf(),
    ensures
        r is Ok <==> valid_segment(symbol_wire(table, symbol)) && (volume matches Some(v)
            ==> valid_query_value(v@)),
        r matches Ok(d) ==> ({
            let pwq = path_with_query_of(
                joined_path(
                    base.spec_path(),
                    seq!["public"@, "orderbook"@, symbol_wire(table, symbol)],
                ),
                depth_query_of(limit, opt_str_view(volume)),
            );
            &&& d.method == Method::Get
            &&& d.path_with_query@ == pwq
            &&& d.url@ == base.spec_origin() + pwq
            &&& d.authorization is None
            &&& d.timestamp is None
            &&& d.body is None
        }),
{
    let wire = symbol.to_wire(table);
    let segments: Vec<&str> = vec!["public", "orderbook", wire.as_str()];
    let mut query: Vec<(String, String)> = Vec::new();
    match volume {
        Some(v) => {
            query.push((String::from_str("volume"), String::from_str(v)));
        },
        None => match limit {
            Some(n) => {
                query.push((String::from_str("limit"), u64_to_dec(n)));
            },
            None => {},
        },
    }
    let r = build_public_request(base, &segments, &query);
    proof {
        reveal_strlit("public");
        reveal_strlit("orderbook");
        reveal_strlit("volume");
        reveal_strlit("limit");
        assert(valid_segment("public"@));
        assert(valid_segment("orderbook"@));
        assert(valid_segment("volume"@));
        assert(valid_segment("limit"@));
        assert(seg_views(segments@) =~= seq![
            "public"@,
            "orderbook"@,
            symbol_wire(table, symbol),
        ]);
        match volume {
            Some(v) => {
                assert(pair_views(query@) =~= seq![("volume"@, v@)]);
            },
            None => match limit {
                Some(n) => {
                    lemma_dec_str_plain(n as nat);
                    assert(pair_views(query@) =~= seq![("limit"@, dec_str_of(n as nat))]);
                },
                None => {
                    assert(pair_views(query@) =~= Seq::<(Seq<char>, Seq<char>)>::empty());
                },
            },
        }
    }
    r
}

/// The serialized market-order body, as a function of the wire strings it
/// carries.
pub open spec fn market_order_body_json(
    symbol: Seq<char>,
    side: Seq<char>,
    quantity: Seq<char>,
) -> Seq<char> {
    json_object(
        seq![
            json_member("symbol"@, json_string_value(symbol)),
            json_member("side"@, json_string_value(side)),
            json_member("quantity"@, json_string_value(quantity)),
            json_member("type"@, json_string_value("market"@)),
        ],
    )
}

/// The serialized limit-order body, as a function of the wire strings it
/// carries.
pub open spec fn limit_order_body_json(
    symbol: Seq<char>,
    side: Seq<char>,
    quantity: Seq<char>,
    price: Seq<char>,
) -> Seq<char> {
    json_object(
        seq![
            json_member("symbol"@, json_string_value(symbol)),
            json_member("side"@, json_string_value(side)),
            json_member("quantity"@, json_string_value(quantity)),
            json_member("price"@, json_string_value(price)),
        ],
    )
}

/// The wire strings of a side are always plain JSON text.
proof fn lemma_side_wire_json_plain(side: Side)
    ensures
        json_plain(side_wire(side)),
{
    reveal_strlit("sell");
    reveal_strlit("buy");
    match side {
        Side::Sell => assert(json_plain("sell"@)),
        Side::Buy => assert(json_plain("buy"@)),
    }
}

/// The signed request creating a market order: `POST {base}/order` with the
/// serialized body, signed over exactly the transmitted bytes.
pub fn create_market_order_request(
    ctx: &AuthContext,
    base: &BaseUrl,
    order: typed::CreateMarketOrder,
    timestamp: &str,
) -> (r: Result<RequestDescriptor, RequestBuildError>)
    requires
        base.wf(),
    ensures
        r is Ok <==> json_plain(
            legacy_coin_wire(&order.symbol.left) + legacy_coin_wire(&order.symbol.right),
        ) && json_plain(order.quantity@),
        r matches Ok(d) ==> ({
            let body = market_order_body_json(
                legacy_coin_wire(&order.symbol.left) + legacy_coin_wire(&order.symbol.right),
                side_wire(order.side),
                order.quantity@,
            );
            let pwq = joined_path(base.spec_path(), seq!["order"@]);
            &&& d.method == Method::Post
            &&& d.path_with_query@ == pwq
            &&& d.url@ == base.spec_origin() + pwq
            &&& d.timestamp matches Some(t) && t@ == timestamp@
            &&& d.body matches Some(b) && b@ == body
            &&& d.authorization matches Some(a) && a@ == auth_header_of(
                ctx.spec_public_key(),
                ctx.spec_private_key(),
                timestamp@,
                canonical_message_of(method_wire(Method::Post), timestamp@, pwq, body),
            )
        }),
{
    proof {
        lemma_side_wire_json_plain(order.side);
        reveal_strlit("market");
        assert(json_plain("market"@));
    }
    let model = order.to_model();
    let body = match model.to_json() {
        Ok(b) => b,
        Err(e) => { return Err(e) },
    };
    proof {
        assert(body@ =~= market_order_body_json(
            legacy_coin_wire(&order.symbol.left) + legacy_coin_wire(&order.symbol.right),
            side_wire(order.side),
            order.quantity@,
        ));
    }
    let segments: Vec<&str> = vec!["order"];
    let query: Vec<(String, String)> = Vec::new();
    let r = build_signed_request(ctx, base, Method::Post, &segments, &query, Some(body), timestamp);
    proof {
        reveal_strlit("order");
        assert(valid_segment("order"@));
        assert(seg_views(segments@) =~= seq!["order"@]);
        assert(pair_views(query@) =~= Seq::<(Seq<char>, Seq<char>)>::empty());
    }
    r
}

/// The signed request creating a limit order: `POST {base}/order` with the
/// serialized body, signed over exactly the transmitted bytes.
pub fn create_limit_order_request(
    ctx: &AuthContext,
    base: &BaseUrl,
    order: typed::CreateLimitOrder,
    timestamp: &str,
) -> (r: Result<RequestDescriptor, RequestBuildError>)
    requires
        base.wf(),
    ensures
        r is Ok <==> json_plain(
            legacy_coin_wire(&order.symbol.left) + legacy_coin_wire(&order.symbol.right),
        ) && json_plain(order.quantity@) && json_plain(order.price@),
        r matches Ok(d) ==> ({
            let body = limit_order_body_json(
                legacy_coin_wire(&order.symbol.left) + legacy_coin_wire(&order.symbol.right),
                side_wire(order.side),
                order.quantity@,
                order.price@,
            );
            let pwq = joined_path(base.spec_path(), seq!["order"@]);
            &&& d.method == Method::Post
            &&& d.path_with_query@ == pwq
            &&& d.url@ == base.spec_origin() + pwq
            &&& d.timestamp matches Some(t) && t@ == timestamp@
            &&& d.body matches Some(b) && b@ == body
            &&& d.authorization matches Some(a) && a@ == auth_header_of(
                ctx.spec_public_key(),
                ctx.spec_private_key(),
                timestamp@,
                canonical_message_of(method_wire(Method::Post), timestamp@, pwq, body),
            )
        }),
{
    proof {
        lemma_side_wire_json_plain(order.side);
    }
    let model = order.to_model();
    let body = match model.to_json() {
        Ok(b) => b,
        Err(e) => { return Err(e) },
    };
    proof {
        assert(body@ =~= limit_order_body_json(
            legacy_coin_wire(&order.symbol.left) + legacy_coin_wire(&order.symbol.right),
            side_wire(order.side),
            order.quantity@,
            order.price@,
        ));
    }
    let segments: Vec<&str> = vec!["order"];
    let query: Vec<(String, String)> = Vec::new();
    let r = build_signed_request(ctx, base, Method::Post, &segments, &query, Some(body), timestamp);
    proof {
        reveal_strlit("order");
        assert(valid_segment("order"@));
        assert(seg_views(segments@) =~= seq!["order"@]);
        assert(pair_views(query@) =~= Seq::<(Seq<char>, Seq<char>)>::empty());
    }
    r
}

} // verus!
