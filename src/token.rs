use vstd::prelude::*;
use vstd::utf8::{decode_utf8, valid_utf8};
use crate::claims::{
    check_claims, claims_from_payload, claims_verdict, has_required_claims, opt_view, payload_claims,
    Claims, VerifyError,
};

verus! {

/// What an HS256 decode of `token` under `key` gives: the payload once the
/// token's structure, header algorithm and signature are accepted, else
/// `Malformed` or `BadSignature`. No time is read and no claim is checked.
pub uninterp spec fn hs256_decode(token: Seq<char>, key: Seq<u8>) -> Result<serde_json::Value, VerifyError>;

/// Relies on std::str::from_utf8: it accepts exactly the valid UTF-8 byte
/// sequences and keeps their text.
#[verifier::external_body]
pub(crate) fn text_of(b: &[u8]) -> (r: Option<&str>)
    ensures
        r is Some == valid_utf8(b@),
        r matches Some(s) ==> s@ == decode_utf8(b@),
{
    std::str::from_utf8(b).ok()
}

/// Relies on jsonwebtoken::decode, with HS256 as the one algorithm and the
/// expiry, not-before and audience checks turned off and no claim required:
/// it splits the token, checks its header and its signature under `key`, and
/// parses the payload. An `InvalidSignature` error is a bad signature, any
/// other error a malformed token.
#[verifier::external_body]
fn decode_hs256(token: &str, key: &[u8]) -> (r: Result<serde_json::Value, VerifyError>)
    ensures
        r == hs256_decode(token@, key@),
        r matches Err(e) ==> (e == VerifyError::Malformed || e == VerifyError::BadSignature),
{
    let mut validation = jsonwebtoken::Validation::new(jsonwebtoken::Algorithm::HS256);
    validation.validate_exp = false;
    validation.validate_aud = false;
    validation.required_spec_claims = std::collections::HashSet::new();
    let decoding_key = jsonwebtoken::DecodingKey::from_secret(key);
    match jsonwebtoken::decode::<serde_json::Value>(token, &decoding_key, &validation) {
        Ok(data) => Ok(data.claims),
        Err(e) => match e.kind() {
            jsonwebtoken::errors::ErrorKind::InvalidSignature => Err(VerifyError::BadSignature),
            _ => Err(VerifyError::Malformed),
        },
    }
}

/// Relies on std's `SystemTime::duration_since(UNIX_EPOCH)` on the system
/// clock: whole seconds since the epoch, or `None` when the clock reads
/// before it. Nothing is known of the value.
#[verifier::external_body]
pub(crate) fn current_timestamp() -> (r: Option<u64>) {
    std::time::SystemTime::now().duration_since(std::time::UNIX_EPOCH).ok().map(|d| d.as_secs())
}

/// The verdict on a token: the decode must succeed, the payload must hold
/// every required claim, and those claims must pass `claims_verdict`.
pub open spec fn token_verdict(
    token: Seq<char>,
    key: Seq<u8>,
    issuer: Option<Seq<char>>,
    audience: Option<Seq<char>>,
    now: u64,
) -> Result<(), VerifyError> {
    match hs256_decode(token, key) {
        Err(e) => Err(e),
        Ok(p) => if !has_required_claims(p) {
            Err(VerifyError::Malformed)
        } else {
            claims_verdict(payload_claims(p), now, issuer, audience)
        },
    }
}

/// Verifies an HS256 token under `key` at time `now`, checking the issuer and
/// the audience where they are given; returns the token's claims.
pub fn verify(
    token: &str,
    key: &[u8],
    issuer: Option<&str>,
    audience: Option<&str>,
    now: u64,
) -> (r: Result<Claims, VerifyError>)
    ensures
        r is Ok == (token_verdict(token@, key@, opt_view(issuer), opt_view(audience), now) is Ok),
        r matches Err(e) ==> token_verdict(token@, key@, opt_view(issuer), opt_view(audience), now)
            == Err::<(), VerifyError>(e),
        r matches Ok(c) ==> hs256_decode(token@, key@) matches Ok(p) && c@ == payload_claims(p),
{
    let payload = match decode_hs256(token, key) {
        Ok(p) => p,
        Err(e) => return Err(e),
    };
    let claims = match claims_from_payload(&payload) {
        Some(c) => c,
        None => return Err(VerifyError::Malformed),
    };
    match check_claims(&claims, now, issuer, audience) {
        Ok(()) => Ok(claims),
        Err(e) => Err(e),
    }
}

} // verus!
