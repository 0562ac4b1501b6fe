//! The token-verification leaf collaborator.
//!
//! A token is an opaque signed byte-encoded claim set; it crosses this
//! runtime only as raw bytes.  Decoding, MAC verification and claim checks
//! are the work of the `common_access_token` crate, reached through the
//! trusted wrappers below; base64 transport encoding is the work of the
//! `base64` crate.  Every failure is mapped into the closed `TokenError`
//! taxonomy, and the verified pipeline `check_token` fixes one uniform,
//! graceful failure policy for all callers.

use crate::cbor::{envelope_scan_ok, spec_envelope_ok};
use vstd::prelude::*;
use vstd::string::StringSliceAdditionalSpecFns;

verus! {

/// The closed failure taxonomy of the token layer.
#[derive(Clone, Copy, PartialEq, Eq, Structural, Debug)]
pub enum TokenError {
    /// The bytes do not decode to a claim-set structure.
    MalformedEncoding,
    /// The claim set decodes, but its signature does not match the key.
    SignatureMismatch,
    /// The expiration claim lies in the past.
    Expired,
    /// The not-before claim lies in the future.
    NotYetValid,
    /// The issuer claim differs from the expected issuer.
    IssuerMismatch,
    /// The audience claim differs from the expected audience.
    AudienceMismatch,
}

/// Relies on `common_access_token::Token` being an ordinary owned value: the
/// decoded claim set is carried opaquely between the wrappers below.
#[verifier::external_type_specification]
#[verifier::external_body]
pub struct ExToken(common_access_token::Token);

/// Whether these bytes decode to a claim-set structure: what
/// `common_access_token::Token::from_bytes` accepts, a function of the bytes
/// alone.
pub uninterp spec fn cat_parses(bytes: Seq<u8>) -> bool;

/// Whether these bytes decode to a claim set whose signature matches this
/// key: the joint verdict of `common_access_token::Token::from_bytes` and
/// `Token::verify`, a function of the bytes and the key alone.
pub uninterp spec fn cat_sig_ok(bytes: Seq<u8>, key: Seq<u8>) -> bool;

/// The signed, byte-encoded claim set built from exactly these claims and
/// this secret: what the token builder's deterministic HMAC signing and
/// serialization produce, a function of the arguments alone.
pub uninterp spec fn cat_signed_token(
    key_id: Seq<char>,
    issuer: Seq<char>,
    subject: Seq<char>,
    audience: Seq<char>,
    expiration: u64,
    custom_key: i32,
    custom_value: Seq<char>,
    secret: Seq<u8>,
) -> Seq<u8>;

/// The base64 text of these bytes: what `base64::encode` produces, a
/// function of the bytes alone.
pub uninterp spec fn b64_encoded(bytes: Seq<u8>) -> Seq<char>;

/// The bytes these base64 characters decode to, or `None` when the text is
/// not valid base64: what `base64::decode` produces, a function of the text
/// alone.
pub uninterp spec fn b64_decoded(text: Seq<u8>) -> Option<Seq<u8>>;

/// Relies on `common_access_token::Token::from_bytes` and `Token::verify`:
/// a deterministic parse of the bytes followed by the deterministic MAC
/// check against the key.  The bounded-structure scan must have approved the
/// bytes first: the decoder trusts declared lengths and aborts on crafted
/// ones.  A signature mismatch is reported as such and arises only from one;
/// every other failure (unparsable bytes, unreadable algorithm header) is a
/// format error.
#[verifier::external_body]
pub(crate) fn cat_parse_and_verify(bytes: &[u8], key: &[u8]) -> (r: Result<common_access_token::Token, TokenError>)
    requires
        spec_envelope_ok(bytes@),
    ensures
        (r is Ok) == (cat_parses(bytes@) && cat_sig_ok(bytes@, key@)),
        r matches Err(e) ==> (e == TokenError::SignatureMismatch
            || e == TokenError::MalformedEncoding),
        r matches Err(e) ==> (e == TokenError::SignatureMismatch ==> (cat_parses(bytes@)
            && !cat_sig_ok(bytes@, key@))),
{
    let token = match common_access_token::Token::from_bytes(bytes) {
        Ok(t) => t,
        Err(_) => return Err(TokenError::MalformedEncoding),
    };
    match token.verify(key) {
        Ok(()) => Ok(token),
        Err(common_access_token::Error::SignatureVerification) => Err(
            TokenError::SignatureMismatch,
        ),
        Err(_) => Err(TokenError::MalformedEncoding),
    }
}

/// Relies on `common_access_token::Token::verify_claims` with expiration
/// checking as asked and an expected issuer: against these options its only
/// failures are an expired token, a not-yet-valid token, or an issuer
/// mismatch.  The verdict reads the host's clock, so two calls on one token
/// may differ.
#[verifier::external_body]
pub(crate) fn cat_verify_claims(t: &common_access_token::Token, verify_exp: bool, issuer: &str) -> (r:
    Result<(), TokenError>)
    ensures
        r matches Err(e) ==> (e == TokenError::Expired || e == TokenError::NotYetValid
            || e == TokenError::IssuerMismatch),
{
    let options = common_access_token::VerificationOptions::new().verify_exp(
        verify_exp,
    ).expected_issuer(issuer);
    match t.verify_claims(&options) {
        Ok(()) => Ok(()),
        Err(common_access_token::Error::Expired) => Err(TokenError::Expired),
        Err(common_access_token::Error::NotYetValid) => Err(TokenError::NotYetValid),
        Err(common_access_token::Error::InvalidIssuer) => Err(TokenError::IssuerMismatch),
        Err(_) => Err(TokenError::MalformedEncoding),
    }
}

/// Relies on `common_access_token::TokenBuilder` and `Token::to_bytes`: an
/// HMAC-SHA256 claim set built, signed and serialized deterministically from
/// the arguments alone.  It always succeeds: signing fails only without an
/// algorithm, which the body always sets, and serialization writes into a
/// vector, which cannot fail.
#[verifier::external_body]
pub(crate) fn cat_sign(
    key_id: &str,
    issuer: &str,
    subject: &str,
    audience: &str,
    expiration: u64,
    custom_key: i32,
    custom_value: &str,
    secret: &[u8],
) -> (r: Result<Vec<u8>, TokenError>)
    ensures
        r is Ok,
        r matches Ok(v) ==> v@ == cat_signed_token(
            key_id@,
            issuer@,
            subject@,
            audience@,
            expiration,
            custom_key,
            custom_value@,
            secret@,
        ),
{
    let claims = common_access_token::RegisteredClaims::new().with_issuer(issuer).with_subject(
        subject,
    ).with_audience(audience).with_expiration(expiration);
    let signed = common_access_token::TokenBuilder::new().algorithm(
        common_access_token::Algorithm::HmacSha256,
    ).protected_key_id(common_access_token::KeyId::string(key_id)).registered_claims(
        claims,
    ).custom_string(custom_key, custom_value).sign(secret);
    match signed {
        Ok(t) => match t.to_bytes() {
            Ok(b) => Ok(b),
            Err(_) => Err(TokenError::MalformedEncoding),
        },
        Err(_) => Err(TokenError::MalformedEncoding),
    }
}

/// Relies on `common_access_token::current_timestamp`: the host clock's
/// seconds since the epoch.  Nothing is promised of it; no two reads need
/// agree, and it aborts only on a clock that predates the epoch.
#[verifier::external_body]
pub(crate) fn current_unix_time() -> u64 {
    common_access_token::current_timestamp()
}

/// Relies on `base64::encode`: the standard padded base64 text of the bytes,
/// a function of the bytes alone; four output characters for every three
/// input bytes, rounded up.  `base64::decode` of that text, taken as its
/// UTF-8 bytes, gives the input back: both use the standard alphabet with
/// padding.
#[verifier::external_body]
pub(crate) fn b64_encode(bytes: &[u8]) -> (r: String)
    ensures
        r@ == b64_encoded(bytes@),
        r@.len() == ((bytes@.len() + 2) / 3) * 4,
        b64_decoded(vstd::utf8::encode_utf8(r@)) == Some(bytes@),
{
    base64::encode(bytes)
}

/// Relies on `base64::decode`: decodes standard padded base64 text, `Some`
/// exactly on valid encodings, a function of the text alone.  The decoded
/// bytes are always fewer than the text: three for every four characters.
#[verifier::external_body]
pub fn decode_base64(text: &[u8]) -> (r: Option<Vec<u8>>)
    ensures
        (r is Some) == (b64_decoded(text@) is Some),
        r matches Some(v) ==> b64_decoded(text@) == Some(v@) && v@.len() * 4 <= text@.len() * 3
            && v@.len() <= text@.len(),
{
    match base64::decode(text) {
        Ok(v) => Some(v),
        Err(_) => None,
    }
}

/// Whether the bytes pass everything about a token that does not depend on
/// the clock: the bounded-structure scan, the parse, and the signature check
/// against this key.
pub open spec fn spec_sig_accepted(bytes: Seq<u8>, key: Seq<u8>) -> bool {
    spec_envelope_ok(bytes) && cat_parses(bytes) && cat_sig_ok(bytes, key)
}

/// The one verification pipeline: bound the structure, decode the bytes,
/// check the signature against the secret, then check the claims
/// (expiration, expected issuer).  Unbounded or malformed bytes always fail
/// with `MalformedEncoding`; a wrongly signed token is refused; a correctly
/// signed token fails only on its claims, as the host clock finds them.
pub fn check_token(bytes: &[u8], secret: &[u8], issuer: &str) -> (r: Result<(), TokenError>)
    ensures
        r is Ok ==> spec_sig_accepted(bytes@, secret@),
        !cat_parses(bytes@) ==> (r matches Err(e) && e == TokenError::MalformedEncoding),
        !spec_envelope_ok(bytes@) ==> (r matches Err(e) && e == TokenError::MalformedEncoding),
        (spec_envelope_ok(bytes@) && cat_parses(bytes@) && !cat_sig_ok(bytes@, secret@)) ==> (r
            matches Err(e) && (e == TokenError::SignatureMismatch
            || e == TokenError::MalformedEncoding)),
        spec_sig_accepted(bytes@, secret@) ==> (r is Ok || (r matches Err(e) && (e
            == TokenError::Expired || e == TokenError::NotYetValid || e
            == TokenError::IssuerMismatch))),
        (r matches Err(e) && e == TokenError::SignatureMismatch) ==> !cat_sig_ok(bytes@, secret@),
{
    if !envelope_scan_ok(bytes) {
        return Err(TokenError::MalformedEncoding);
    }
    let token = match cat_parse_and_verify(bytes, secret) {
        Ok(t) => t,
        Err(e) => {
            return Err(e);
        },
    };
    match cat_verify_claims(&token, true, issuer) {
        Ok(()) => Ok(()),
        Err(e) => Err(e),
    }
}

} // verus!


