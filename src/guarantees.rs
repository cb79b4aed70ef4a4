//! What every validation call guarantees, stated over `authorization`, the
//! decision that `authorize`, `validate` and `validate_now` are held to.

use vstd::prelude::*;
use vstd::utf8::{decode_utf8, valid_utf8};
use crate::adapter::{authorization, verdict_of, ValidationResult};
use crate::claims::{count_members, has_required_claims, VerifyError};
use crate::token::hs256_decode;

verus! {

/// A token whose signature the configured secret does not accept (one signed
/// with another secret) is denied.
pub proof fn lemma_foreign_signature_denied(
    secret: Seq<u8>,
    token: Seq<u8>,
    role: Seq<u8>,
    issuer: Option<Seq<char>>,
    audience: Option<Seq<char>>,
    now: u64,
)
    requires
        valid_utf8(token) ==> hs256_decode(decode_utf8(token), secret) is Err,
    ensures
        authorization(Some(secret), token, role, issuer, audience, now) is Err,
{
}

/// A token whose expiry is not after the verification time is denied,
/// whether or not its signature is valid.
pub proof fn lemma_expired_denied(
    secret: Seq<u8>,
    token: Seq<u8>,
    role: Seq<u8>,
    issuer: Option<Seq<char>>,
    audience: Option<Seq<char>>,
    now: u64,
)
    requires
        valid_utf8(token) ==> (hs256_decode(decode_utf8(token), secret) matches Ok(p) ==> (
            count_members(p).contains_key("exp"@) && count_members(p)["exp"@] <= now)),
    ensures
        authorization(Some(secret), token, role, issuer, audience, now) is Err,
{
}

/// A token that lacks a required claim is denied as malformed.
pub proof fn lemma_missing_claim_denied(
    secret: Seq<u8>,
    token: Seq<u8>,
    role: Seq<u8>,
    issuer: Option<Seq<char>>,
    audience: Option<Seq<char>>,
    now: u64,
)
    requires
        valid_utf8(token),
        valid_utf8(role),
        valid_utf8(secret),
        hs256_decode(decode_utf8(token), secret) matches Ok(p) && !has_required_claims(p),
    ensures
        authorization(Some(secret), token, role, issuer, audience, now) == Err::<
            Seq<char>,
            VerifyError,
        >(VerifyError::Malformed),
{
}

/// Without a configured secret every call is denied, and no identity is
/// handed out.
pub proof fn lemma_unconfigured_denied(
    r: ValidationResult,
    token: Seq<u8>,
    role: Seq<u8>,
    issuer: Option<Seq<char>>,
    audience: Option<Seq<char>>,
    now: u64,
)
    requires
        verdict_of(r, None, token, role, issuer, audience, now),
    ensures
        authorization(None, token, role, issuer, audience, now) == Err::<Seq<char>, VerifyError>(
            VerifyError::Unconfigured,
        ),
        !r.authorized,
        r.identity is None,
{
}

/// A token that the secret accepts, with every required claim and an expiry
/// in the future, is accepted when no issuer or audience is asked for; the
/// identity is the requested role, not the token's role claim.
pub proof fn lemma_round_trip(
    secret: Seq<u8>,
    token: Seq<u8>,
    role: Seq<u8>,
    now: u64,
)
    requires
        valid_utf8(token),
        valid_utf8(role),
        valid_utf8(secret),
        hs256_decode(decode_utf8(token), secret) matches Ok(p) && has_required_claims(p)
            && count_members(p)["exp"@] > now,
    ensures
        authorization(Some(secret), token, role, None, None, now) == Ok::<Seq<char>, VerifyError>(
            decode_utf8(role),
        ),
{
}

/// Two validation calls with the same inputs against the same state give the
/// same verdict and the same identity.
pub proof fn lemma_validate_repeatable(
    r1: ValidationResult,
    r2: ValidationResult,
    secret: Option<Seq<u8>>,
    token: Seq<u8>,
    role: Seq<u8>,
    issuer: Option<Seq<char>>,
    audience: Option<Seq<char>>,
    now: u64,
)
    requires
        verdict_of(r1, secret, token, role, issuer, audience, now),
        verdict_of(r2, secret, token, role, issuer, audience, now),
    ensures
        r1.authorized == r2.authorized,
        r1.identity is Some == r2.identity is Some,
        r1.identity matches Some(a) ==> r2.identity matches Some(b) && a@ == b@,
{
}

/// A token that is not valid UTF-8 is denied for its encoding, before any
/// signature check.
pub proof fn lemma_bad_encoding_denied(
    secret: Seq<u8>,
    token: Seq<u8>,
    role: Seq<u8>,
    issuer: Option<Seq<char>>,
    audience: Option<Seq<char>>,
    now: u64,
)
    requires
        !valid_utf8(token),
    ensures
        authorization(Some(secret), token, role, issuer, audience, now) == Err::<
            Seq<char>,
            VerifyError,
        >(VerifyError::Encoding),
{
}

} // verus!
