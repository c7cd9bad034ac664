//! The token codec: claim sets go out as signed, time-bounded compact tokens
//! and come back in through signature, structure, and expiry checks, in that
//! order.
//!
//! The two trusted wrappers at the top are the only places where the signing
//! library is called; everything downstream is proved against their
//! contracts.

use vstd::prelude::*;

use crate::claims::{
    claims_json, claims_parsed, cliams_json, lemma_claims_round_trip, Claims, ClaimsV, CliamsV,
};

verus! {

/// Why a token was rejected. Signature and structure are checked before
/// expiry, so a tampered token is never reported as merely expired.
#[derive(Debug, Clone, Copy, PartialEq, Eq, Structural)]
pub enum TokenError {
    /// The signature does not match the secret.
    InvalidSignature,
    /// The token or its payload is structurally invalid.
    Malformed,
    /// Signature and structure are fine, but the expiry has passed.
    Expired,
}

/// The compact signed token produced for a payload under a secret, with this
/// crate's fixed header (HS256). A function of payload and secret alone.
pub uninterp spec fn token_of(payload: Seq<char>, secret: Seq<char>) -> Seq<char>;

/// The outcome of signature-checked decoding of a token under a secret, with
/// the clock-dependent checks turned off: `Ok` carries the payload text
/// exactly as signed; `Err(true)` is a rejected signature, `Err(false)` a
/// structurally invalid token. A function of token and secret alone.
pub uninterp spec fn jws_decoding(token: Seq<char>, secret: Seq<char>) -> Result<Seq<char>, bool>;

/// A payload in one of this crate's claim shapes. Such payloads are valid
/// JSON objects, so encoding and decoding them cannot fail structurally.
pub open spec fn claims_payload(p: Seq<char>) -> bool {
    (exists|c: ClaimsV| p == claims_json(c)) || (exists|c: CliamsV| p == cliams_json(c))
}

/// Relies on `jsonwebtoken::encode` with the default header (HS256) and a
/// symmetric secret: the token is a function of payload and secret alone
/// and is never empty (the compact form joins header, payload, and
/// signature with dots), and a payload in this crate's claim shapes is
/// valid JSON, so encoding it succeeds and it round-trips through
/// `jws_decode` under the same secret. Under any other secret the signature
/// check rejects the token: `jsonwebtoken::decode` verifies the HMAC before
/// it ever reads the payload, and the MAC under a different key is taken to
/// differ — the usual idealization of the MAC.
#[verifier::external_body]
pub(crate) fn jws_encode(payload: &str, secret: &str) -> (r: Option<String>)
    ensures
        (match r {
            Some(t) => {
                &&& t@ == token_of(payload@, secret@)
                &&& t@.len() > 0
                &&& claims_payload(payload@) ==> jws_decoding(t@, secret@) == Ok::<
                    Seq<char>,
                    bool,
                >(payload@)
                &&& forall|s2: Seq<char>|
                    s2 != secret@ ==> jws_decoding(t@, s2) == Err::<Seq<char>, bool>(true)
            },
            None => true,
        }),
        claims_payload(payload@) ==> r is Some,
{
    let raw = match serde_json::value::RawValue::from_string(payload.to_string()) {
        Ok(raw) => raw,
        Err(_) => return None,
    };
    jsonwebtoken::encode(
        &jsonwebtoken::Header::default(),
        &raw,
        &jsonwebtoken::EncodingKey::from_secret(secret.as_bytes()),
    )
        .ok()
}

/// Relies on `jsonwebtoken::decode` over HS256 with the expiry and audience
/// checks turned off, so the outcome is a function of token and secret alone:
/// the payload comes back exactly as signed, and a rejected signature is told
/// apart from every structural failure.
#[verifier::external_body]
pub(crate) fn jws_decode(token: &str, secret: &str) -> (r: Result<String, TokenError>)
    ensures
        (match (r, jws_decoding(token@, secret@)) {
            (Ok(p), Ok(sp)) => p@ == sp,
            (Err(TokenError::InvalidSignature), Err(sig)) => sig == true,
            (Err(TokenError::Malformed), Err(sig)) => sig == false,
            _ => false,
        }),
{
    let mut validation = jsonwebtoken::Validation::new(jsonwebtoken::Algorithm::HS256);
    validation.validate_exp = false;
    validation.validate_aud = false;
    validation.required_spec_claims = std::collections::HashSet::new();
    let key = jsonwebtoken::DecodingKey::from_secret(secret.as_bytes());
    match jsonwebtoken::decode::<Box<serde_json::value::RawValue>>(token, &key, &validation) {
        Ok(data) => Ok(data.claims.get().to_string()),
        Err(e) => match e.kind() {
            jsonwebtoken::errors::ErrorKind::InvalidSignature => Err(TokenError::InvalidSignature),
            _ => Err(TokenError::Malformed),
        },
    }
}

/// What verification returns for a token, a secret, and an instant: the
/// signature check comes first, then the structural parse, then the expiry
/// check (`now >= exp` is expired).
pub open spec fn spec_verify_token(token: Seq<char>, secret: Seq<char>, now: u64) -> Result<
    ClaimsV,
    TokenError,
> {
    match jws_decoding(token, secret) {
        Err(sig) => if sig {
            Err(TokenError::InvalidSignature)
        } else {
            Err(TokenError::Malformed)
        },
        Ok(p) => match claims_parsed(p) {
            None => Err(TokenError::Malformed),
            Some(c) => if now >= c.exp {
                Err(TokenError::Expired)
            } else {
                Ok(c)
            },
        },
    }
}

/// Issues the signed token for a claim set. The token verifies back to
/// exactly these claims at every instant before `exp`, is rejected as
/// expired from `exp` on, and is rejected as badly signed under every other
/// secret.
pub fn issue_token(claims: &Claims, secret: &str) -> (r: Option<String>)
    ensures
        r is Some,
        (match r {
            Some(t) => {
                &&& t@ == token_of(claims_json(claims@), secret@)
                &&& t@.len() > 0
                &&& forall|now: u64|
                    now < claims@.exp ==> spec_verify_token(t@, secret@, now) == Ok::<
                        ClaimsV,
                        TokenError,
                    >(claims@)
                &&& forall|now: u64|
                    now >= claims@.exp ==> spec_verify_token(t@, secret@, now) == Err::<
                        ClaimsV,
                        TokenError,
                    >(TokenError::Expired)
                &&& forall|s2: Seq<char>, now: u64|
                    s2 != secret@ ==> spec_verify_token(t@, s2, now) == Err::<
                        ClaimsV,
                        TokenError,
                    >(TokenError::InvalidSignature)
            },
            None => false,
        }),
{
    let payload = claims.to_json();
    proof {
        assert(claims_payload(payload@));
        lemma_claims_round_trip(claims@);
    }
    jws_encode(payload.as_str(), secret)
}

/// Verifies a token against a secret at the instant `now`, returning the
/// claims it carries or the first failing check.
pub fn verify_token(token: &str, secret: &str, now: u64) -> (r: Result<Claims, TokenError>)
    ensures
        (match (r, spec_verify_token(token@, secret@, now)) {
            (Ok(c), Ok(sc)) => c@ == sc,
            (Err(e), Err(se)) => e == se,
            _ => false,
        }),
{
    match jws_decode(token, secret) {
        Err(e) => Err(e),
        Ok(payload) => match Claims::from_json(payload.as_str()) {
            None => Err(TokenError::Malformed),
            Some(c) => {
                if now >= c.exp {
                    Err(TokenError::Expired)
                } else {
                    Ok(c)
                }
            },
        },
    }
}

/// Expiry dominates content: a token that verifies at some instant is
/// rejected as `Expired` at every instant from its expiry on, whatever else
/// its claims hold.
pub proof fn lemma_verify_expired(
    token: Seq<char>,
    secret: Seq<char>,
    now0: u64,
    now: u64,
    c: ClaimsV,
)
    requires
        spec_verify_token(token, secret, now0) == Ok::<ClaimsV, TokenError>(c),
        c.exp <= now,
    ensures
        spec_verify_token(token, secret, now) == Err::<ClaimsV, TokenError>(TokenError::Expired),
{
}

} // verus!
