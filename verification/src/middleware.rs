//! The authorize middleware and its helpers: the older email-keyed token
//! flow, user resolution against the account store, and the
//! basic-authentication check in front of the GraphQL playground.

use vstd::prelude::*;

use crate::claims::{cliams_json, lemma_cliams_round_trip, Cliams, CliamsV};
use crate::clock::now_unix;
use crate::errors::ApiError;
use crate::store::{has_email, AccountStore, AccountV};
use crate::text::{chars_string, is_ws, scan_lit, scan_ws, skip_ws, str_chars, vec_slice};
use crate::token::{jws_decoding, jws_encode, token_of, TokenError};

verus! {

/// How long a token from `encode_jwt` lives: one day, in seconds.
pub const DAY_TTL_SECS: u64 = 24 * 60 * 60;

// ---------------------------------------------------------------------------
// the resolved user
// ---------------------------------------------------------------------------

/// The user the authorize middleware attaches to a request.
#[derive(Debug)]
pub struct CurrentUser {
    pub email: String,
    pub first_name: String,
    pub last_name: String,
    pub password_hash: String,
}

pub ghost struct CurrentUserV {
    pub email: Seq<char>,
    pub first_name: Seq<char>,
    pub last_name: Seq<char>,
    pub password_hash: Seq<char>,
}

impl View for CurrentUser {
    type V = CurrentUserV;

    open spec fn view(&self) -> CurrentUserV {
        CurrentUserV {
            email: self.email@,
            first_name: self.first_name@,
            last_name: self.last_name@,
            password_hash: self.password_hash@,
        }
    }
}

/// The request-scoped projection of a stored account. The account keeps one
/// display name; it stands in the given-name field and the family-name
/// field stays empty.
pub open spec fn current_user_of(a: AccountV) -> CurrentUserV {
    CurrentUserV {
        email: a.email,
        first_name: a.name,
        last_name: Seq::empty(),
        password_hash: a.password_hash,
    }
}

/// Resolves the stored account holding this email to its request-scoped
/// projection; `None` exactly when no account holds it.
pub fn retrieve_user_by_email(store: &AccountStore, email: &str) -> (r: Option<CurrentUser>)
    ensures
        (match r {
            Some(u) => exists|k: int|
                0 <= k < store@.len() && (#[trigger] store@[k].email) == email@ && u@
                    == current_user_of(store@[k]),
            None => !has_email(store@, email@),
        }),
{
    match store.find_by_email(email) {
        Some(k) => {
            let a = store.get(k);
            Some(
                CurrentUser {
                    email: a.email.clone(),
                    first_name: a.name.clone(),
                    last_name: String::new(),
                    password_hash: a.password_hash.clone(),
                },
            )
        },
        None => None,
    }
}

// ---------------------------------------------------------------------------
// the older token flow
// ---------------------------------------------------------------------------

/// The claim set `encode_jwt` issues for an email at the instant `now`.
pub open spec fn cliams_for(email: Seq<char>, now: u64) -> CliamsV
    recommends
        now + DAY_TTL_SECS <= u64::MAX,
{
    CliamsV { exp: (now + DAY_TTL_SECS) as u64, iat: now, email: email }
}

/// What decoding an older-shape token returns at the instant `now`: the
/// signature check comes first, then the structural parse, then the expiry
/// check, each with its own error.
pub open spec fn spec_decode_jwt(token: Seq<char>, secret: Seq<char>, now: u64) -> Result<
    CliamsV,
    TokenError,
> {
    match jws_decoding(token, secret) {
        Err(sig) => if sig {
            Err(TokenError::InvalidSignature)
        } else {
            Err(TokenError::Malformed)
        },
        Ok(p) => match crate::claims::cliams_parsed(p) {
            None => Err(TokenError::Malformed),
            Some(c) => if now >= c.exp {
                Err(TokenError::Expired)
            } else {
                Ok(c)
            },
        },
    }
}

/// A well-issued older-shape token for `email` under `secret` at `now`: it
/// is the encoding of that claim set, non-empty, decodes back to exactly
/// those claims at every instant before the expiry, is rejected as expired
/// from the expiry on, and is rejected as badly signed under every other
/// secret.
pub open spec fn legacy_token_good(
    t: Seq<char>,
    email: Seq<char>,
    secret: Seq<char>,
    now: u64,
) -> bool {
    &&& t == token_of(cliams_json(cliams_for(email, now)), secret)
    &&& t.len() > 0
    &&& forall|n2: u64|
        n2 < cliams_for(email, now).exp ==> spec_decode_jwt(t, secret, n2) == Ok::<
            CliamsV,
            TokenError,
        >(cliams_for(email, now))
    &&& forall|n2: u64|
        n2 >= cliams_for(email, now).exp ==> spec_decode_jwt(t, secret, n2) == Err::<
            CliamsV,
            TokenError,
        >(TokenError::Expired)
    &&& forall|s2: Seq<char>, n2: u64|
        s2 != secret ==> spec_decode_jwt(t, s2, n2) == Err::<CliamsV, TokenError>(
            TokenError::InvalidSignature,
        )
}

/// Issues the older-shape token for an email once the clock reading is
/// fixed. Issuance never fails, and the token carries every guarantee of
/// `legacy_token_good`.
pub fn encode_jwt_at(email: String, secret: &str, now: u64) -> (r: Result<String, u16>)
    requires
        now + DAY_TTL_SECS <= u64::MAX,
    ensures
        r is Ok,
        (match r {
            Ok(t) => legacy_token_good(t@, email@, secret@, now),
            Err(_) => false,
        }),
{
    let claims = Cliams { exp: now + DAY_TTL_SECS, iat: now, email };
    let payload = claims.to_json();
    proof {
        assert(claims@ == cliams_for(claims.email@, now));
        assert(crate::token::claims_payload(payload@));
        lemma_cliams_round_trip(claims@);
    }
    match jws_encode(payload.as_str(), secret) {
        Some(t) => Ok(t),
        None => Err(500),
    }
}

/// Issues the older-shape token for an email: reads the clock, then encodes
/// as `encode_jwt_at` does. Fails (with a server-error status) only when
/// the clock reading is too large to give the token a lifetime.
pub fn encode_jwt(email: String, secret: &str) -> (r: Result<String, u16>)
    ensures
        (match r {
            Ok(t) => exists|now: u64| #[trigger] legacy_token_good(t@, email@, secret@, now),
            Err(code) => code == 500,
        }),
{
    let now = now_unix();
    if now > u64::MAX - DAY_TTL_SECS {
        return Err(500);
    }
    encode_jwt_at(email, secret, now)
}

/// Decodes an older-shape token at the instant `now`. Exactly
/// `spec_decode_jwt`: a bad signature, a malformed token, and an expired
/// one are told apart.
pub fn decode_jwt(jwt: String, secret: &str, now: u64) -> (r: Result<Cliams, TokenError>)
    ensures
        (match (r, spec_decode_jwt(jwt@, secret@, now)) {
            (Ok(c), Ok(sc)) => c@ == sc,
            (Err(e), Err(se)) => e == se,
            _ => false,
        }),
{
    let payload = match crate::token::jws_decode(jwt.as_str(), secret) {
        Ok(p) => p,
        Err(e) => {
            return Err(e);
        },
    };
    match Cliams::from_json(payload.as_str()) {
        None => Err(TokenError::Malformed),
        Some(c) => {
            if now >= c.exp {
                Err(TokenError::Expired)
            } else {
                Ok(c)
            }
        },
    }
}

// ---------------------------------------------------------------------------
// the authorize middleware's decision
// ---------------------------------------------------------------------------

/// The first position at or after `i` that holds whitespace (or the end):
/// the end of the word starting at `i`.
pub open spec fn word_end(s: Seq<char>, i: int) -> int
    decreases s.len() - i,
{
    if 0 <= i < s.len() && !is_ws(s[i]) {
        word_end(s, i + 1)
    } else {
        i
    }
}

/// Advances to the end of the current word, mirroring `word_end`.
fn scan_word_end(v: &Vec<char>, i: usize) -> (r: usize)
    requires
        i <= v.len(),
    ensures
        r as int == word_end(v@, i as int),
        i <= r <= v.len(),
    decreases v.len() - i,
{
    if i < v.len() {
        let c = v[i];
        if !(c == ' ' || c == '\t' || c == '\n' || c == '\r') {
            return scan_word_end(v, i + 1);
        }
    }
    i
}

/// What the authorize middleware decides for a header and an instant: the
/// resolved user, or the message of the `Unauthorized` rejection. The
/// header's first whitespace-separated word must be the bearer scheme, the
/// second — which must be present — is the token; the resolved user is the
/// stored account holding the decoded claims' email.
pub open spec fn spec_authorize_core(
    store: Seq<AccountV>,
    header: Option<Seq<char>>,
    secret: Seq<char>,
    now: u64,
) -> Result<CurrentUserV, Seq<char>> {
    match header {
        Option::None => Err("Please add the JWT token to the header"@),
        Option::Some(h) => {
            let w1s = skip_ws(h, 0);
            let w1e = word_end(h, w1s);
            if h.subrange(w1s, w1e) != "Bearer"@ {
                Err("Authorization method not supported"@)
            } else {
                let w2s = skip_ws(h, w1e);
                let w2e = word_end(h, w2s);
                if w2s == w2e {
                    Err("Invalid authorization format"@)
                } else {
                    match spec_decode_jwt(h.subrange(w2s, w2e), secret, now) {
                        Err(_) => Err("Unable to decode token"@),
                        Ok(c) => if has_email(store, c.email) {
                            Ok(
                                current_user_of(
                                    store[
                                        choose|k: int|
                                            0 <= k < store.len() && store[k].email == c.email
                                    ],
                                ),
                            )
                        } else {
                            Err("You are not an authorized user"@)
                        },
                    }
                }
            }
        },
    }
}

/// Runs the authorize middleware's decision: checks the bearer scheme,
/// decodes the token, and resolves the stored user to attach. Exactly
/// `spec_authorize_core`; every rejection is `Unauthorized` with the spec's
/// message.
pub fn authorize_core(store: &AccountStore, header: Option<&str>, secret: &str, now: u64) -> (r:
    Result<CurrentUser, ApiError>)
    requires
        store.wf(),
    ensures
        (match (r, spec_authorize_core(
            store@,
            (match header {
                Some(h) => Some(h@),
                None => None,
            }),
            secret@,
            now,
        )) {
            (Ok(u), Ok(su)) => u@ == su,
            (Err(e), Err(m)) => e matches ApiError::Unauthorized(mm) && mm@ == m,
            _ => false,
        }),
{
    let h = match header {
        Some(h) => h,
        None => {
            return Err(
                ApiError::Unauthorized(String::from_str("Please add the JWT token to the header")),
            );
        },
    };
    let buf = str_chars(h);
    let w1s = scan_ws(&buf, 0);
    let w1e = scan_word_end(&buf, w1s);
    let scheme = chars_string(&vec_slice(&buf, w1s, w1e));
    if !(scheme == String::from_str("Bearer")) {
        return Err(
            ApiError::Unauthorized(String::from_str("Authorization method not supported")),
        );
    }
    let w2s = scan_ws(&buf, w1e);
    let w2e = scan_word_end(&buf, w2s);
    if w2s == w2e {
        return Err(ApiError::Unauthorized(String::from_str("Invalid authorization format")));
    }
    let token = chars_string(&vec_slice(&buf, w2s, w2e));
    match decode_jwt(token, secret, now) {
        Err(_) => Err(ApiError::Unauthorized(String::from_str("Unable to decode token"))),
        Ok(c) => {
            match retrieve_user_by_email(store, c.email.as_str()) {
                Some(u) => {
                    proof {
                        let kw = choose|k: int|
                            0 <= k < store@.len() && (#[trigger] store@[k].email) == c@.email && u@
                                == current_user_of(store@[k]);
                        let ch = choose|k: int|
                            0 <= k < store@.len() && store@[k].email == c@.email;
                        assert(0 <= kw < store@.len() && store@[kw].email == c@.email && u@
                            == current_user_of(store@[kw]));
                        assert(has_email(store@, c@.email));
                        assert(0 <= ch < store@.len() && store@[ch].email == c@.email);
                        if kw != ch {
                            assert(store@[kw].email == store@[ch].email);
                            assert(false);
                        }
                    }
                    Ok(u)
                },
                None => Err(
                    ApiError::Unauthorized(String::from_str("You are not an authorized user")),
                ),
            }
        },
    }
}

// ---------------------------------------------------------------------------
// basic authentication
// ---------------------------------------------------------------------------

/// The bytes the text encodes in standard base64, or `None` when it is not
/// valid base64. A function of the argument alone.
pub uninterp spec fn b64_std_decoding(s: Seq<char>) -> Option<Seq<u8>>;

/// Relies on the base64 crate's standard-alphabet engine: decodes the text
/// to the bytes it encodes, `None` on invalid input.
#[verifier::external_body]
fn b64_decode_std(s: &str) -> (r: Option<Vec<u8>>)
    ensures
        (match r {
            Some(b) => b64_std_decoding(s@) == Some(b@),
            None => b64_std_decoding(s@) is None,
        }),
{
    base64::Engine::decode(&base64::engine::general_purpose::STANDARD, s).ok()
}

/// The text the bytes encode as UTF-8, or `None` when they are not valid
/// UTF-8. A function of the argument alone.
pub uninterp spec fn utf8_decoding(b: Seq<u8>) -> Option<Seq<char>>;

/// Relies on `String::from_utf8`: decodes the bytes to the text they
/// encode, `None` on invalid input.
#[verifier::external_body]
fn utf8_to_string(b: Vec<u8>) -> (r: Option<String>)
    ensures
        (match r {
            Some(t) => utf8_decoding(b@) == Some(t@),
            None => utf8_decoding(b@) is None,
        }),
{
    String::from_utf8(b).ok()
}

/// The first position at or after `i` holding `c`, or the length when `c`
/// does not occur.
pub open spec fn char_pos(s: Seq<char>, c: char, i: int) -> int
    decreases s.len() - i,
{
    if 0 <= i < s.len() {
        if s[i] == c {
            i
        } else {
            char_pos(s, c, i + 1)
        }
    } else {
        s.len() as int
    }
}

/// Finds the next occurrence of `c`, mirroring `char_pos`.
fn scan_char(v: &Vec<char>, c: char, i: usize) -> (r: usize)
    requires
        i <= v.len(),
    ensures
        r as int == char_pos(v@, c, i as int),
        i <= r <= v.len(),
    decreases v.len() - i,
{
    if i < v.len() {
        if v[i] == c {
            i
        } else {
            scan_char(v, c, i + 1)
        }
    } else {
        v.len()
    }
}

/// The configured credential text holds exactly one colon, between user
/// name and password.
pub open spec fn single_colon(cfg: Seq<char>) -> bool {
    char_pos(cfg, ':', 0) < cfg.len() && char_pos(cfg, ':', char_pos(cfg, ':', 0) + 1)
        == cfg.len()
}

/// The decoded credentials match the configured pair: same user name up to
/// the first colon, same password after it.
pub open spec fn creds_ok(decoded: Seq<char>, cfg: Seq<char>) -> bool {
    let di = char_pos(decoded, ':', 0);
    let ci = char_pos(cfg, ':', 0);
    &&& di < decoded.len()
    &&& decoded.take(di) == cfg.take(ci)
    &&& decoded.skip(di + 1) == cfg.skip(ci + 1)
}

/// Whether a basic-authentication header grants access against the
/// configured `user:password` pair: the scheme is `Basic`, the rest decodes
/// through base64 and UTF-8, and the credentials match.
pub open spec fn spec_basic_auth_ok(header: Option<Seq<char>>, cfg: Seq<char>) -> bool {
    match header {
        Option::None => false,
        Option::Some(h) => {
            if h.len() >= 6 && h.subrange(0, 6) == "Basic "@ {
                match b64_std_decoding(h.skip(6)) {
                    Option::None => false,
                    Option::Some(bytes) => match utf8_decoding(bytes) {
                        Option::None => false,
                        Option::Some(d) => creds_ok(d, cfg),
                    },
                }
            } else {
                false
            }
        },
    }
}

/// Runs the basic-authentication check. Exactly `spec_basic_auth_ok`.
pub fn basic_auth_check(header: Option<&str>, configured: &str) -> (r: bool)
    requires
        single_colon(configured@),
    ensures
        r == spec_basic_auth_ok(
            (match header {
                Some(h) => Some(h@),
                None => None,
            }),
            configured@,
        ),
{
    let h = match header {
        Some(h) => h,
        None => {
            return false;
        },
    };
    let buf = str_chars(h);
    let rest = match scan_lit(&buf, 0, "Basic ") {
        Some(j) => {
            proof {
                reveal_strlit("Basic ");
            }
            chars_string(&vec_slice(&buf, j, buf.len()))
        },
        None => {
            proof {
                reveal_strlit("Basic ");
                if h@.len() >= 6 && h@.subrange(0, 6) == "Basic "@ {
                    assert(false);
                }
            }
            return false;
        },
    };
    proof {
        assert(rest@ =~= h@.skip(6));
    }
    let bytes = match b64_decode_std(rest.as_str()) {
        Some(b) => b,
        None => {
            return false;
        },
    };
    let decoded = match utf8_to_string(bytes) {
        Some(d) => d,
        None => {
            return false;
        },
    };
    let dv = str_chars(decoded.as_str());
    let cv = str_chars(configured);
    let di = scan_char(&dv, ':', 0);
    if di == dv.len() {
        return false;
    }
    let ci = scan_char(&cv, ':', 0);
    let d_user = chars_string(&vec_slice(&dv, 0, di));
    let c_user = chars_string(&vec_slice(&cv, 0, ci));
    let d_pass = chars_string(&vec_slice(&dv, di + 1, dv.len()));
    let c_pass = chars_string(&vec_slice(&cv, ci + 1, cv.len()));
    proof {
        assert(dv@.subrange(0, di as int) =~= dv@.take(di as int));
        assert(cv@.subrange(0, ci as int) =~= cv@.take(ci as int));
        assert(dv@.subrange(di + 1, dv@.len() as int) =~= dv@.skip(di + 1));
        assert(cv@.subrange(ci + 1, cv@.len() as int) =~= cv@.skip(ci + 1));
    }
    d_user == c_user && d_pass == c_pass
}

} // verus!
