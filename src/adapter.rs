use vstd::prelude::*;
use vstd::utf8::{decode_utf8, valid_utf8};
use crate::claims::{opt_view, VerifyError};
use crate::state::ModuleState;
use crate::token::{current_timestamp, text_of, token_verdict, verify};

verus! {

/// What a validation call decides, for a state holding `secret` (or none): the
/// identity granted, which is the requested role, or why access is denied.
/// An unconfigured state denies; then the token, the role and the secret
/// must be valid UTF-8; then the token must pass `token_verdict`.
pub open spec fn authorization(
    secret: Option<Seq<u8>>,
    token: Seq<u8>,
    role: Seq<u8>,
    issuer: Option<Seq<char>>,
    audience: Option<Seq<char>>,
    now: u64,
) -> Result<Seq<char>, VerifyError> {
    match secret {
        None => Err(VerifyError::Unconfigured),
        Some(key) => if !valid_utf8(token) || !valid_utf8(role) || !valid_utf8(key) {
            Err(VerifyError::Encoding)
        } else {
            match token_verdict(decode_utf8(token), key, issuer, audience, now) {
                Ok(()) => Ok(decode_utf8(role)),
                Err(e) => Err(e),
            }
        },
    }
}

/// `o` is the outcome that `authorization` gives for these inputs.
pub open spec fn outcome_of(
    o: Result<String, VerifyError>,
    secret: Option<Seq<u8>>,
    token: Seq<u8>,
    role: Seq<u8>,
    issuer: Option<Seq<char>>,
    audience: Option<Seq<char>>,
    now: u64,
) -> bool {
    match o {
        Ok(id) => authorization(secret, token, role, issuer, audience, now) == Ok::<
            Seq<char>,
            VerifyError,
        >(id@),
        Err(e) => authorization(secret, token, role, issuer, audience, now) == Err::<
            Seq<char>,
            VerifyError,
        >(e),
    }
}

/// Decides whether `token` lets the client connect as `role`; on success the
/// identity is a copy of the requested role, not the token's own role claim.
pub fn authorize(
    state: &ModuleState,
    token: &[u8],
    role: &[u8],
    issuer: Option<&str>,
    audience: Option<&str>,
    now: u64,
) -> (r: Result<String, VerifyError>)
    ensures
        outcome_of(r, state@, token@, role@, opt_view(issuer), opt_view(audience), now),
{
    let key = match state.secret() {
        Some(k) => k,
        None => return Err(VerifyError::Unconfigured),
    };
    let token_text = match text_of(token) {
        Some(t) => t,
        None => return Err(VerifyError::Encoding),
    };
    let role_text = match text_of(role) {
        Some(t) => t,
        None => return Err(VerifyError::Encoding),
    };
    if text_of(key).is_none() {
        return Err(VerifyError::Encoding);
    }
    match verify(token_text, key, issuer, audience, now) {
        Ok(_) => Ok(role_text.to_owned()),
        Err(e) => Err(e),
    }
}

/// The verdict handed back to the host: `identity` is set exactly when
/// `authorized` is.
pub struct ValidationResult {
    pub authorized: bool,
    pub identity: Option<String>,
}

impl ValidationResult {
    pub open spec fn wf(&self) -> bool {
        self.identity is Some == self.authorized
    }

    /// The safe default: access denied, no identity.
    pub fn denied() -> (r: ValidationResult)
        ensures
            r.wf(),
            !r.authorized,
    {
        ValidationResult { authorized: false, identity: None }
    }

    /// The verdict for an outcome of `authorize`.
    pub fn from_outcome(outcome: Result<String, VerifyError>) -> (r: ValidationResult)
        ensures
            r.wf(),
            r.authorized == outcome is Ok,
            outcome matches Ok(id) ==> r.identity == Some(id),
    {
        match outcome {
            Ok(id) => ValidationResult { authorized: true, identity: Some(id) },
            Err(_) => ValidationResult::denied(),
        }
    }
}

/// `r` is the verdict that `authorization` gives for these inputs.
pub open spec fn verdict_of(
    r: ValidationResult,
    secret: Option<Seq<u8>>,
    token: Seq<u8>,
    role: Seq<u8>,
    issuer: Option<Seq<char>>,
    audience: Option<Seq<char>>,
    now: u64,
) -> bool {
    &&& r.wf()
    &&& r.authorized == authorization(secret, token, role, issuer, audience, now) is Ok
    &&& r.identity matches Some(id) ==> authorization(secret, token, role, issuer, audience, now)
        == Ok::<Seq<char>, VerifyError>(id@)
}

/// One validation call at time `now`. It never fails: a denial is reported in
/// the result, and the state is only read.
pub fn validate(
    state: &ModuleState,
    token: &[u8],
    role: &[u8],
    issuer: Option<&str>,
    audience: Option<&str>,
    now: u64,
) -> (r: ValidationResult)
    ensures
        verdict_of(r, state@, token@, role@, opt_view(issuer), opt_view(audience), now),
{
    ValidationResult::from_outcome(authorize(state, token, role, issuer, audience, now))
}

/// `authorize` at the current time of the system clock; denied with
/// `ClockUnavailable` when the clock cannot be read.
pub fn authorize_now(
    state: &ModuleState,
    token: &[u8],
    role: &[u8],
    issuer: Option<&str>,
    audience: Option<&str>,
) -> (r: Result<String, VerifyError>)
    ensures
        r == Err::<String, VerifyError>(VerifyError::ClockUnavailable) || exists|now: u64|
            outcome_of(r, state@, token@, role@, opt_view(issuer), opt_view(audience), now),
{
    match current_timestamp() {
        Some(now) => authorize(state, token, role, issuer, audience, now),
        None => Err(VerifyError::ClockUnavailable),
    }
}

/// One validation call at the current time of the system clock; denied when
/// the clock cannot be read.
pub fn validate_now(
    state: &ModuleState,
    token: &[u8],
    role: &[u8],
    issuer: Option<&str>,
    audience: Option<&str>,
) -> (r: ValidationResult)
    ensures
        r.wf(),
        (!r.authorized && r.identity is None) || exists|now: u64|
            verdict_of(r, state@, token@, role@, opt_view(issuer), opt_view(audience), now),
{
    let outcome = authorize_now(state, token, role, issuer, audience);
    let r = ValidationResult::from_outcome(outcome);
    if !r.authorized {
        return r;
    }
    let ghost now = choose|now: u64|
        outcome_of(outcome, state@, token@, role@, opt_view(issuer), opt_view(audience), now);
    assert(verdict_of(r, state@, token@, role@, opt_view(issuer), opt_view(audience), now));
    r
}

} // verus!
