//! Credentials and request signing.
//!
//! The authorization header is a deterministic function of the credentials,
//! the timestamp and the canonical message:
//! `"HS256 " ++ base64(public_key ":" timestamp ":" hex(hmac_sha256(private_key, message)))`.
//! The HMAC digest and the base64 encoding come from outside crates and are
//! named rather than restated; the hex encoding is short enough to state
//! exactly.

use vstd::prelude::*;
use vstd::string::StrSliceExecFns;
use vstd::string::StringExecFns;
use vstd::utf8::encode_utf8;
use hmac::Mac;
use crate::error::SignatureComputeError;

verus! {

/// The HMAC-SHA-256 tag of `data` under `key`: a function of the two byte
/// strings alone.
pub uninterp spec fn hmac_sha256_of(key: Seq<u8>, data: Seq<u8>) -> Seq<u8>;

/// The base64 form (standard alphabet, `=` padding) of a byte string: a
/// function of the bytes alone.
pub uninterp spec fn base64_of(bytes: Seq<u8>) -> Seq<char>;

/// The lowercase hex digit writing `d`.
pub open spec fn hex_digit_char(d: nat) -> char {
    if d < 10 {
        crate::text::dec_digit(d)
    } else if d == 10 {
        'a'
    } else if d == 11 {
        'b'
    } else if d == 12 {
        'c'
    } else if d == 13 {
        'd'
    } else if d == 14 {
        'e'
    } else {
        'f'
    }
}

/// The lowercase hex form of a byte string: two digits per byte, high
/// nibble first.
pub open spec fn hex_of(bytes: Seq<u8>) -> Seq<char>
    decreases bytes.len(),
{
    if bytes.len() == 0 {
        Seq::empty()
    } else {
        seq![
            hex_digit_char((bytes[0] / 16) as nat),
            hex_digit_char((bytes[0] % 16) as nat),
        ] + hex_of(bytes.drop_first())
    }
}

/// Relies on hmac's `Hmac<Sha256>` (`new_from_slice`, `update`, `finalize`):
/// the 32-byte HMAC-SHA-256 tag of `data` under `key`. HMAC accepts a key of
/// any length, so `new_from_slice` cannot fail here.
#[verifier::external_body]
pub(crate) fn hmac_sha256(key: &Vec<u8>, data: &Vec<u8>) -> (r: Vec<u8>)
    ensures
        r@ == hmac_sha256_of(key@, data@),
        r@.len() == 32,
{
    let mut mac = <hmac::Hmac<sha2::Sha256> as Mac>::new_from_slice(key)
        .expect("HMAC accepts a key of any length");
    mac.update(data);
    mac.finalize().into_bytes().to_vec()
}

/// Relies on hex::encode: two lowercase hex digits per input byte, in input
/// order. Like any allocation of twice the input size, this aborts only on
/// an input too large for memory.
#[verifier::external_body]
pub(crate) fn hex_encode(bytes: &Vec<u8>) -> (r: String)
    ensures
        r@ == hex_of(bytes@),
{
    hex::encode(bytes)
}

/// Relies on base64::encode: the standard alphabet with `=` padding, which
/// writes four characters for every started group of three input bytes. It
/// panics only when four thirds of the input length overflows `usize`,
/// which no vector that fits in memory reaches.
#[verifier::external_body]
pub(crate) fn base64_encode(bytes: &Vec<u8>) -> (r: String)
    ensures
        r@ == base64_of(bytes@),
        r@.len() == 4 * ((bytes@.len() + 2) / 3),
{
    base64::encode(bytes)
}

/// The string that is base64-encoded into the authorization header:
/// `public_key ":" timestamp ":" hex_digest`.
pub open spec fn signing_payload(
    public_key: Seq<char>,
    timestamp: Seq<char>,
    hex_digest: Seq<char>,
) -> Seq<char> {
    public_key + ":"@ + timestamp + ":"@ + hex_digest
}

/// The authorization header value for a canonical message, as a function of
/// the credentials, the timestamp and the message.
pub open spec fn auth_header_of(
    public_key: Seq<char>,
    private_key: Seq<char>,
    timestamp: Seq<char>,
    message: Seq<char>,
) -> Seq<char> {
    "HS256 "@ + base64_of(
        encode_utf8(
            signing_payload(
                public_key,
                timestamp,
                hex_of(hmac_sha256_of(encode_utf8(private_key), encode_utf8(message))),
            ),
        ),
    )
}

/// Immutable credentials for the authenticated endpoints. The key material
/// is private to this type and appears in no diagnostic output.
pub struct AuthContext {
    public_key: String,
    private_key: String,
}

impl AuthContext {
    /// The public API key.
    pub closed spec fn spec_public_key(&self) -> Seq<char> {
        self.public_key@
    }

    /// The private API key.
    pub closed spec fn spec_private_key(&self) -> Seq<char> {
        self.private_key@
    }

    /// Credentials that can sign: the private key is not empty.
    pub open spec fn wf(&self) -> bool {
        self.spec_private_key().len() > 0
    }

    /// Builds credentials, rejecting an empty private key up front rather
    /// than deferring the failure to signing time.
    pub fn new(public_key: String, private_key: String) -> (r: Result<
        AuthContext,
        SignatureComputeError,
    >)
        ensures
            r matches Ok(ctx) ==> {
                &&& ctx.wf()
                &&& ctx.spec_public_key() == public_key@
                &&& ctx.spec_private_key() == private_key@
            },
            r is Ok <==> private_key@.len() > 0,
            r matches Err(e) ==> e == SignatureComputeError::EmptyPrivateKey,
    {
        if private_key.as_str().unicode_len() == 0 {
            Err(SignatureComputeError::EmptyPrivateKey)
        } else {
            Ok(AuthContext { public_key, private_key })
        }
    }

    /// The authorization header for `message` at `timestamp`: pure and
    /// deterministic, no side effects, safe to share across concurrent
    /// signing operations.
    pub fn sign(&self, message: String, timestamp: String) -> (r: String)
        ensures
            r@ == auth_header_of(
                self.spec_public_key(),
                self.spec_private_key(),
                timestamp@,
                message@,
            ),
    {
        sign_with(
            self.public_key.as_str(),
            self.private_key.as_str(),
            timestamp.as_str(),
            message.as_str(),
        )
    }
}

/// The authorization header for one canonical message, from bare key
/// strings; a private key of any length is accepted here.
pub fn sign_with(public_key: &str, private_key: &str, timestamp: &str, message: &str) -> (r:
    String)
    ensures
        r@ == auth_header_of(public_key@, private_key@, timestamp@, message@),
{
    let key_bytes = private_key.as_bytes_vec();
    let msg_bytes = message.as_bytes_vec();
    let digest = hmac_sha256(&key_bytes, &msg_bytes);
    let hex_digest = hex_encode(&digest);
    let mut payload = String::from_str(public_key);
    payload.append(":");
    payload.append(timestamp);
    payload.append(":");
    payload.append(hex_digest.as_str());
    let payload_bytes = payload.as_str().as_bytes_vec();
    let encoded = base64_encode(&payload_bytes);
    let mut r = String::from_str("HS256 ");
    r.append(encoded.as_str());
    proof {
        assert(payload@ =~= signing_payload(
            public_key@,
            timestamp@,
            hex_of(hmac_sha256_of(encode_utf8(private_key@), encode_utf8(message@))),
        ));
    }
    r
}

/// Signing is deterministic: one (public key, private key, timestamp,
/// message) tuple determines the authorization header, independent of call
/// order or concurrency.
pub proof fn lemma_sign_deterministic(
    first: Seq<char>,
    second: Seq<char>,
    public_key: Seq<char>,
    private_key: Seq<char>,
    timestamp: Seq<char>,
    message: Seq<char>,
)
    requires
        first == auth_header_of(public_key, private_key, timestamp, message),
        second == auth_header_of(public_key, private_key, timestamp, message),
    ensures
        first == second,
{
}

} // verus!
