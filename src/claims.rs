use vstd::prelude::*;

verus! {

/// Why a token was refused.
#[derive(Debug, Clone, Copy, PartialEq, Eq, Structural)]
pub enum VerifyError {
    /// The token, the role or the secret is not valid UTF-8.
    Encoding,
    /// No secret was configured when the module started.
    Unconfigured,
    /// The token is not a well-formed signed token, or a required claim is missing.
    Malformed,
    /// The signature does not match the secret.
    BadSignature,
    /// The token's expiry is not after the verification time.
    Expired,
    /// The issuer or the audience differs from the one asked for.
    ClaimMismatch,
    /// The system clock could not be read, so expiry cannot be judged.
    ClockUnavailable,
}

/// The payload of a verified token. Every field is required in the token.
#[derive(Debug)]
pub struct Claims {
    pub sub: String,
    pub email: String,
    pub role: String,
    /// Expiry, in seconds since the epoch.
    pub exp: u64,
    pub iss: String,
    pub aud: String,
}

/// What a `Claims` value holds, as text and numbers.
pub struct ClaimsView {
    pub sub: Seq<char>,
    pub email: Seq<char>,
    pub role: Seq<char>,
    pub exp: u64,
    pub iss: Seq<char>,
    pub aud: Seq<char>,
}

impl View for Claims {
    type V = ClaimsView;

    open spec fn view(&self) -> ClaimsView {
        ClaimsView {
            sub: self.sub@,
            email: self.email@,
            role: self.role@,
            exp: self.exp,
            iss: self.iss@,
            aud: self.aud@,
        }
    }
}

/// The registered-claim checks: the token must expire strictly after `now`,
/// and its issuer and audience must equal those asked for, where one is.
pub open spec fn claims_verdict(
    c: ClaimsView,
    now: u64,
    issuer: Option<Seq<char>>,
    audience: Option<Seq<char>>,
) -> Result<(), VerifyError> {
    if c.exp <= now {
        Err(VerifyError::Expired)
    } else if issuer is Some && c.iss != issuer->0 {
        Err(VerifyError::ClaimMismatch)
    } else if audience is Some && c.aud != audience->0 {
        Err(VerifyError::ClaimMismatch)
    } else {
        Ok(())
    }
}

fn same_text(a: &String, b: &str) -> (r: bool)
    ensures
        r == (a@ == b@),
{
    let b_owned = b.to_owned();
    *a == b_owned
}

/// Checks expiry, then issuer and audience where they are asked for.
pub fn check_claims(
    c: &Claims,
    now: u64,
    issuer: Option<&str>,
    audience: Option<&str>,
) -> (r: Result<(), VerifyError>)
    ensures
        r == claims_verdict(c@, now, opt_view(issuer), opt_view(audience)),
{
    if c.exp <= now {
        return Err(VerifyError::Expired);
    }
    if let Some(i) = issuer {
        if !same_text(&c.iss, i) {
            return Err(VerifyError::ClaimMismatch);
        }
    }
    if let Some(a) = audience {
        if !same_text(&c.aud, a) {
            return Err(VerifyError::ClaimMismatch);
        }
    }
    Ok(())
}

/// A decoded token payload, as JSON. Verus sees nothing inside it: what the
/// library reads of it goes through `text_members` and `count_members`.
#[verifier::external_type_specification]
#[verifier::external_body]
pub struct ExJsonValue(serde_json::Value);

/// The members of a JSON object whose value is a string, by name (none for a
/// value that is not an object).
pub uninterp spec fn text_members(v: serde_json::Value) -> Map<Seq<char>, Seq<char>>;

/// The members of a JSON object whose value is an integer in `u64`, by name
/// (none for a value that is not an object).
pub uninterp spec fn count_members(v: serde_json::Value) -> Map<Seq<char>, u64>;

/// Relies on serde_json's `Value::get` and `Value::as_str`: the member `name`
/// of an object, when that member is a string.
#[verifier::external_body]
fn text_member(v: &serde_json::Value, name: &str) -> (r: Option<String>)
    ensures
        r is Some == text_members(*v).contains_key(name@),
        r matches Some(s) ==> s@ == text_members(*v)[name@],
{
    v.get(name).and_then(serde_json::Value::as_str).map(str::to_owned)
}

/// Relies on serde_json's `Value::get` and `Value::as_u64`: the member `name`
/// of an object, when that member is an integer that fits in `u64`.
#[verifier::external_body]
fn count_member(v: &serde_json::Value, name: &str) -> (r: Option<u64>)
    ensures
        r is Some == count_members(*v).contains_key(name@),
        r matches Some(n) ==> n == count_members(*v)[name@],
{
    v.get(name).and_then(serde_json::Value::as_u64)
}

/// A payload holds every required claim: `sub`, `email`, `role`, `iss` and
/// `aud` as strings, `exp` as an integer.
pub open spec fn has_required_claims(p: serde_json::Value) -> bool {
    &&& text_members(p).contains_key("sub"@)
    &&& text_members(p).contains_key("email"@)
    &&& text_members(p).contains_key("role"@)
    &&& text_members(p).contains_key("iss"@)
    &&& text_members(p).contains_key("aud"@)
    &&& count_members(p).contains_key("exp"@)
}

/// The claims of payload `p`, where it holds every required one.
pub open spec fn payload_claims(p: serde_json::Value) -> ClaimsView {
    ClaimsView {
        sub: text_members(p)["sub"@],
        email: text_members(p)["email"@],
        role: text_members(p)["role"@],
        exp: count_members(p)["exp"@],
        iss: text_members(p)["iss"@],
        aud: text_members(p)["aud"@],
    }
}

/// Reads the required claims out of a decoded payload; `None` when one is
/// missing or has the wrong type.
pub fn claims_from_payload(p: &serde_json::Value) -> (r: Option<Claims>)
    ensures
        r is Some == has_required_claims(*p),
        r matches Some(c) ==> c@ == payload_claims(*p),
{
    let sub = text_member(p, "sub");
    let email = text_member(p, "email");
    let role = text_member(p, "role");
    let exp = count_member(p, "exp");
    let iss = text_member(p, "iss");
    let aud = text_member(p, "aud");
    match (sub, email, role, exp, iss, aud) {
        (Some(sub), Some(email), Some(role), Some(exp), Some(iss), Some(aud)) => {
            Some(Claims { sub, email, role, exp, iss, aud })
        },
        _ => None,
    }
}

/// The text of an optional string.
pub open spec fn opt_view(s: Option<&str>) -> Option<Seq<char>> {
    match s {
        Some(t) => Some(t@),
        None => None,
    }
}

} // verus!
