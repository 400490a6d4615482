//! Core of a client for a cryptocurrency exchange's REST API.
//!
//! The library covers the authenticated-request pipeline: the mapping between
//! typed domain objects (sides, order types, coins, symbols) and their wire
//! strings, HMAC-based request signing, assembly of signed request
//! descriptors, and decoding of response bytes into typed values or typed
//! errors. The HTTP transport itself is an external collaborator: it receives
//! a finished [`request::RequestDescriptor`] and hands back a status code and
//! response bytes.

use vstd::prelude::*;

pub mod base;
pub mod coin;
pub mod context;
pub mod error;
pub mod extractor;
pub mod models;
pub mod request;
pub mod time_in_force;
pub mod text;
pub mod typed;

verus! {

/// The authorization header for one request, computed from its parts: the
/// body must be valid UTF-8, and is rejected here, before anything reaches
/// the signer. The timestamp is taken as an argument so that one captured
/// value serves both the signature and the transmitted request.
pub fn authentificate(
    public_key: &str,
    secret_key: &str,
    method: request::Method,
    timestamp: &str,
    path_with_query: &str,
    body: Vec<u8>,
) -> (r: Result<String, error::RequestBuildError>)
    ensures
        r is Ok <==> vstd::utf8::valid_utf8(body@),
        r matches Ok(h) ==> h@ == context::auth_header_of(
            public_key@,
            secret_key@,
            timestamp@,
            request::canonical_message_of(
                request::method_wire(method),
                timestamp@,
                path_with_query@,
                vstd::utf8::decode_utf8(body@),
            ),
        ),
        r matches Err(e) ==> e == error::RequestBuildError::NonUtf8Body,
{
    let body_string = match text::string_from_utf8(body) {
        Some(s) => s,
        None => { return Err(error::RequestBuildError::NonUtf8Body) },
    };
    let message = request::get_message(method, timestamp, path_with_query, body_string.as_str());
    Ok(context::sign_with(public_key, secret_key, timestamp, message.as_str()))
}

/// The signed request reading the account balance; the same descriptor as
/// [`request::account_balance_request`], kept at the crate root as the
/// entry point of the oldest layer of this client.
pub fn get_balance(
    ctx: &context::AuthContext,
    base: &request::BaseUrl,
    timestamp: &str,
) -> (r: Result<request::RequestDescriptor, error::RequestBuildError>)
    requires
        base.wf(),
    ensures
        r is Ok,
        r matches Ok(d) ==> ({
            let pwq = request::joined_path(base.spec_path(), seq!["account"@, "balance"@]);
            &&& d.method == request::Method::Get
            &&& d.path_with_query@ == pwq
            &&& d.url@ == base.spec_origin() + pwq
            &&& d.timestamp matches Some(t) && t@ == timestamp@
            &&& d.body is None
            &&& d.authorization matches Some(a) && a@ == context::auth_header_of(
                ctx.spec_public_key(),
                ctx.spec_private_key(),
                timestamp@,
                request::canonical_message_of(
                    request::method_wire(request::Method::Get),
                    timestamp@,
                    pwq,
                    Seq::empty(),
                ),
            )
        }),
{
    request::account_balance_request(ctx, base, timestamp)
}

} // verus!
