//! The claim set carried inside a signed token: subject, the two timestamps,
//! and a snapshot of the account's outward projection.
//!
//! The payload's wire form is fixed by `claims_json`, and `parse_claims`
//! inverts it exactly (`lemma_claims_round_trip`).

use vstd::prelude::*;

use crate::dto::{
    lemma_parse_user_dto_at, parse_user_dto, scan_user_dto, user_dto_json, UserDto, UserDtoV,
};
use crate::text::{
    append_json_string, append_str, append_u64, chars_string, dec_digits, is_digit, json_str,
    lemma_parse_json_string_at, lemma_parse_json_u64_at, lemma_parse_key_at, lemma_parse_sep_at,
    parse_json_string, parse_json_u64, parse_key, parse_sep, scan_json_string, scan_json_u64,
    scan_key, scan_sep, scan_ws, skip_ws, str_chars,
};

verus! {

/// The payload of a signed token: subject (account id), expiry and issued-at
/// as Unix seconds, and the identity snapshot taken at issue time.
#[derive(Debug)]
pub struct Claims {
    pub sub: String,
    pub exp: u64,
    pub iat: u64,
    pub user: UserDto,
}

pub ghost struct ClaimsV {
    pub sub: Seq<char>,
    pub exp: u64,
    pub iat: u64,
    pub user: UserDtoV,
}

impl View for Claims {
    type V = ClaimsV;

    open spec fn view(&self) -> ClaimsV {
        ClaimsV { sub: self.sub@, exp: self.exp, iat: self.iat, user: self.user@ }
    }
}

/// The exact payload text of a claim set.
pub open spec fn claims_json(v: ClaimsV) -> Seq<char> {
    seq!['{'] + "\"sub\":"@ + json_str(v.sub) + claims_json_mid(v)
}

/// The payload text from the `exp` field through the `iat` field.
pub open spec fn claims_json_mid(v: ClaimsV) -> Seq<char> {
    seq![','] + "\"exp\":"@ + dec_digits(v.exp as nat) + seq![','] + "\"iat\":"@ + dec_digits(
        v.iat as nat,
    ) + claims_json_tail(v)
}

/// The payload text from the `user` field on.
pub open spec fn claims_json_tail(v: ClaimsV) -> Seq<char> {
    seq![','] + "\"user\":"@ + user_dto_json(v.user) + seq!['}']
}

pub open spec fn parse_claims(s: Seq<char>, i: int) -> Option<(ClaimsV, int)> {
    match parse_sep(s, i, '{') {
        None => None,
        Some(i1) => match parse_key(s, i1, "\"sub\":"@) {
            None => None,
            Some(i2) => match parse_json_string(s, i2) {
                None => None,
                Some((sub, i3)) => parse_claims_mid(s, i3, sub),
            },
        },
    }
}

/// Continues `parse_claims` after the `sub` field.
pub open spec fn parse_claims_mid(s: Seq<char>, i: int, sub: Seq<char>) -> Option<(ClaimsV, int)> {
    match parse_sep(s, i, ',') {
        None => None,
        Some(i1) => match parse_key(s, i1, "\"exp\":"@) {
            None => None,
            Some(i2) => match parse_json_u64(s, i2) {
                None => None,
                Some((exp, i3)) => match parse_sep(s, i3, ',') {
                    None => None,
                    Some(i4) => match parse_key(s, i4, "\"iat\":"@) {
                        None => None,
                        Some(i5) => match parse_json_u64(s, i5) {
                            None => None,
                            Some((iat, i6)) => parse_claims_tail(s, i6, sub, exp, iat),
                        },
                    },
                },
            },
        },
    }
}

/// Continues `parse_claims` after the `iat` field.
pub open spec fn parse_claims_tail(s: Seq<char>, i: int, sub: Seq<char>, exp: u64, iat: u64) -> Option<
    (ClaimsV, int),
> {
    match parse_sep(s, i, ',') {
        None => None,
        Some(i1) => match parse_key(s, i1, "\"user\":"@) {
            None => None,
            Some(i2) => match parse_user_dto(s, i2) {
                None => None,
                Some((user, i3)) => match parse_sep(s, i3, '}') {
                    None => None,
                    Some(i4) => Some((ClaimsV { sub, exp, iat, user }, i4)),
                },
            },
        },
    }
}

/// A whole-string parse of a token payload.
pub open spec fn claims_parsed(s: Seq<char>) -> Option<ClaimsV> {
    match parse_claims(s, 0) {
        Some((v, j)) => if skip_ws(s, j) == s.len() {
            Some(v)
        } else {
            None
        },
        None => None,
    }
}

impl Claims {
    /// Serializes the claim set to its exact payload text.
    pub fn to_json(&self) -> (r: String)
        ensures
            r@ == claims_json(self@),
    {
        let mut out: Vec<char> = Vec::new();
        out.push('{');
        append_str(&mut out, "\"sub\":");
        append_json_string(&mut out, self.sub.as_str());
        out.push(',');
        append_str(&mut out, "\"exp\":");
        append_u64(&mut out, self.exp);
        out.push(',');
        append_str(&mut out, "\"iat\":");
        append_u64(&mut out, self.iat);
        out.push(',');
        append_str(&mut out, "\"user\":");
        let user_json = self.user.to_json();
        append_str(&mut out, user_json.as_str());
        out.push('}');
        assert(out@ =~= claims_json(self@));
        chars_string(&out)
    }

    /// Parses a claim set from payload text; `None` on any deviation.
    pub fn from_json(s: &str) -> (r: Option<Claims>)
        ensures
            (match (r, claims_parsed(s@)) {
                (Some(x), Some(v)) => x@ == v,
                (None, None) => true,
                _ => false,
            }),
    {
        let buf = str_chars(s);
        match scan_claims(&buf, 0) {
            Some((x, j)) => {
                if scan_ws(&buf, j) == buf.len() {
                    Some(x)
                } else {
                    None
                }
            },
            None => None,
        }
    }
}

/// Scans a claim set, mirroring `parse_claims`.
pub fn scan_claims(v: &Vec<char>, i: usize) -> (r: Option<(Claims, usize)>)
    requires
        i <= v.len(),
    ensures
        (match (r, parse_claims(v@, i as int)) {
            (Some((x, j)), Some((sv, sj))) => x@ == sv && j as int == sj && j <= v.len(),
            (None, None) => true,
            _ => false,
        }),
{
    let i1 = match scan_sep(v, i, '{') {
        Some(j) => j,
        None => {
            return None;
        },
    };
    let i2 = match scan_key(v, i1, "\"sub\":") {
        Some(j) => j,
        None => {
            return None;
        },
    };
    let (sub, i3) = match scan_json_string(v, i2) {
        Some(p) => p,
        None => {
            return None;
        },
    };
    let i4 = match scan_sep(v, i3, ',') {
        Some(j) => j,
        None => {
            return None;
        },
    };
    let i5 = match scan_key(v, i4, "\"exp\":") {
        Some(j) => j,
        None => {
            return None;
        },
    };
    let (exp, i6) = match scan_json_u64(v, i5) {
        Some(p) => p,
        None => {
            return None;
        },
    };
    let i7 = match scan_sep(v, i6, ',') {
        Some(j) => j,
        None => {
            return None;
        },
    };
    let i8 = match scan_key(v, i7, "\"iat\":") {
        Some(j) => j,
        None => {
            return None;
        },
    };
    let (iat, i9) = match scan_json_u64(v, i8) {
        Some(p) => p,
        None => {
            return None;
        },
    };
    let i10 = match scan_sep(v, i9, ',') {
        Some(j) => j,
        None => {
            return None;
        },
    };
    let i11 = match scan_key(v, i10, "\"user\":") {
        Some(j) => j,
        None => {
            return None;
        },
    };
    let (user, i12) = match scan_user_dto(v, i11) {
        Some(p) => p,
        None => {
            return None;
        },
    };
    let i13 = match scan_sep(v, i12, '}') {
        Some(j) => j,
        None => {
            return None;
        },
    };
    Some((Claims { sub: chars_string(&sub), exp, iat, user }, i13))
}

/// Continuation of `lemma_parse_claims_at` from the `user` field on.
#[verifier::rlimit(100)]
pub proof fn lemma_parse_claims_tail_at(s: Seq<char>, i: int, c: ClaimsV)
    requires
        0 <= i,
        i + claims_json_tail(c).len() <= s.len(),
        s.subrange(i, i + claims_json_tail(c).len()) == claims_json_tail(c),
    ensures
        parse_claims_tail(s, i, c.sub, c.exp, c.iat) == Some((c, i + claims_json_tail(c).len())),
{
    reveal_strlit("\"user\":");
    let w = claims_json_tail(c);
    assert forall|t: int| i <= t < i + w.len() implies #[trigger] s[t] == w[t - i] by {
        assert(s.subrange(i, i + w.len())[t - i] == s[t]);
    }
    let j0 = i;
    let j1 = j0 + 1;
    let j2 = j1 + 7;
    let j3 = j2 + user_dto_json(c.user).len();
    let j4 = j3 + 1;
    assert(w.len() == j4 - i);
    assert(s[j0] == ',');
    lemma_parse_sep_at(s, j0, ',');
    assert(s.subrange(j1, j1 + 7) =~= "\"user\":"@);
    lemma_parse_key_at(s, j1, "\"user\":"@);
    assert(s.subrange(j2, j3) =~= user_dto_json(c.user));
    lemma_parse_user_dto_at(s, j2, c.user);
    assert(s[j3] == '}');
    lemma_parse_sep_at(s, j3, '}');
    assert(parse_claims_tail(s, i, c.sub, c.exp, c.iat) == Some((c, i + w.len())));
}

/// Continuation of `lemma_parse_claims_at` from the `exp` field on.
#[verifier::rlimit(100)]
pub proof fn lemma_parse_claims_mid_at(s: Seq<char>, i: int, c: ClaimsV)
    requires
        0 <= i,
        i + claims_json_mid(c).len() <= s.len(),
        s.subrange(i, i + claims_json_mid(c).len()) == claims_json_mid(c),
    ensures
        parse_claims_mid(s, i, c.sub) == Some((c, i + claims_json_mid(c).len())),
{
    reveal_strlit("\"exp\":");
    reveal_strlit("\"iat\":");
    let w = claims_json_mid(c);
    assert forall|t: int| i <= t < i + w.len() implies #[trigger] s[t] == w[t - i] by {
        assert(s.subrange(i, i + w.len())[t - i] == s[t]);
    }
    let j0 = i;
    let j1 = j0 + 1;
    let j2 = j1 + 6;
    let j3 = j2 + dec_digits(c.exp as nat).len();
    let j4 = j3 + 1;
    let j5 = j4 + 6;
    let j6 = j5 + dec_digits(c.iat as nat).len();
    let j7 = j6 + claims_json_tail(c).len();
    assert(w.len() == j7 - i);
    assert(s[j0] == ',');
    lemma_parse_sep_at(s, j0, ',');
    assert(s.subrange(j1, j1 + 6) =~= "\"exp\":"@);
    lemma_parse_key_at(s, j1, "\"exp\":"@);
    assert(s.subrange(j2, j3) =~= dec_digits(c.exp as nat));
    assert(s[j3] == ',');
    assert(!is_digit(','));
    lemma_parse_json_u64_at(s, j2, c.exp);
    lemma_parse_sep_at(s, j3, ',');
    assert(s.subrange(j4, j4 + 6) =~= "\"iat\":"@);
    lemma_parse_key_at(s, j4, "\"iat\":"@);
    assert(s.subrange(j5, j6) =~= dec_digits(c.iat as nat));
    assert(s[j6] == ',') by {
        assert(claims_json_tail(c)[0] == ',');
    }
    lemma_parse_json_u64_at(s, j5, c.iat);
    assert(s.subrange(j6, j7) =~= claims_json_tail(c));
    lemma_parse_claims_tail_at(s, j6, c);
    assert(parse_claims_mid(s, i, c.sub) == Some((c, i + w.len())));
}

/// Parsing inverts serialization: wherever the text holds the payload of `c`,
/// the parser recovers `c` exactly.
#[verifier::rlimit(100)]
pub proof fn lemma_parse_claims_at(s: Seq<char>, i: int, c: ClaimsV)
    requires
        0 <= i,
        i + claims_json(c).len() <= s.len(),
        s.subrange(i, i + claims_json(c).len()) == claims_json(c),
    ensures
        parse_claims(s, i) == Some((c, i + claims_json(c).len())),
{
    reveal_strlit("\"sub\":");
    let w = claims_json(c);
    assert forall|t: int| i <= t < i + w.len() implies #[trigger] s[t] == w[t - i] by {
        assert(s.subrange(i, i + w.len())[t - i] == s[t]);
    }
    let j0 = i;
    let j1 = j0 + 1;
    let j2 = j1 + 6;
    let j3 = j2 + json_str(c.sub).len();
    let j4 = j3 + claims_json_mid(c).len();
    assert(w.len() == j4 - i);
    assert(s[j0] == '{');
    lemma_parse_sep_at(s, j0, '{');
    assert(s.subrange(j1, j1 + 6) =~= "\"sub\":"@);
    lemma_parse_key_at(s, j1, "\"sub\":"@);
    assert(s.subrange(j2, j3) =~= json_str(c.sub));
    lemma_parse_json_string_at(s, j2, c.sub);
    assert(s.subrange(j3, j4) =~= claims_json_mid(c));
    lemma_parse_claims_mid_at(s, j3, c);
    assert(parse_claims(s, i) == Some((c, i + w.len())));
}

/// The payload round trip: parsing the serialized claim set gives back the
/// claim set, exactly.
pub proof fn lemma_claims_round_trip(c: ClaimsV)
    ensures
        claims_parsed(claims_json(c)) == Some(c),
{
    let s = claims_json(c);
    assert(s.subrange(0, s.len() as int) =~= s);
    lemma_parse_claims_at(s, 0, c);
    assert(skip_ws(s, s.len() as int) == s.len());
}

// ---------------------------------------------------------------------------
// the older, email-keyed claim shape
// ---------------------------------------------------------------------------

/// The older claim shape used by the authorize middleware: expiry, issued-at,
/// and the subject's email.
#[derive(Debug)]
pub struct Cliams {
    pub exp: u64,
    pub iat: u64,
    pub email: String,
}

pub ghost struct CliamsV {
    pub exp: u64,
    pub iat: u64,
    pub email: Seq<char>,
}

impl View for Cliams {
    type V = CliamsV;

    open spec fn view(&self) -> CliamsV {
        CliamsV { exp: self.exp, iat: self.iat, email: self.email@ }
    }
}

/// The exact payload text of the older claim shape.
pub open spec fn cliams_json(v: CliamsV) -> Seq<char> {
    seq!['{'] + "\"exp\":"@ + dec_digits(v.exp as nat) + seq![','] + "\"iat\":"@ + dec_digits(
        v.iat as nat,
    ) + seq![','] + "\"email\":"@ + json_str(v.email) + seq!['}']
}

pub open spec fn parse_cliams(s: Seq<char>, i: int) -> Option<(CliamsV, int)> {
    match parse_sep(s, i, '{') {
        None => None,
        Some(i1) => match parse_key(s, i1, "\"exp\":"@) {
            None => None,
            Some(i2) => match parse_json_u64(s, i2) {
                None => None,
                Some((exp, i3)) => match parse_sep(s, i3, ',') {
                    None => None,
                    Some(i4) => match parse_key(s, i4, "\"iat\":"@) {
                        None => None,
                        Some(i5) => match parse_json_u64(s, i5) {
                            None => None,
                            Some((iat, i6)) => match parse_sep(s, i6, ',') {
                                None => None,
                                Some(i7) => match parse_key(s, i7, "\"email\":"@) {
                                    None => None,
                                    Some(i8) => match parse_json_string(s, i8) {
                                        None => None,
                                        Some((email, i9)) => match parse_sep(s, i9, '}') {
                                            None => None,
                                            Some(i10) => Some((CliamsV { exp, iat, email }, i10)),
                                        },
                                    },
                                },
                            },
                        },
                    },
                },
            },
        },
    }
}

/// A whole-string parse of the older payload shape.
pub open spec fn cliams_parsed(s: Seq<char>) -> Option<CliamsV> {
    match parse_cliams(s, 0) {
        Some((v, j)) => if skip_ws(s, j) == s.len() {
            Some(v)
        } else {
            None
        },
        None => None,
    }
}

impl Cliams {
    /// Serializes the claim set to its exact payload text.
    pub fn to_json(&self) -> (r: String)
        ensures
            r@ == cliams_json(self@),
    {
        let mut out: Vec<char> = Vec::new();
        out.push('{');
        append_str(&mut out, "\"exp\":");
        append_u64(&mut out, self.exp);
        out.push(',');
        append_str(&mut out, "\"iat\":");
        append_u64(&mut out, self.iat);
        out.push(',');
        append_str(&mut out, "\"email\":");
        append_json_string(&mut out, self.email.as_str());
        out.push('}');
        assert(out@ =~= cliams_json(self@));
        chars_string(&out)
    }

    /// Parses a claim set from payload text; `None` on any deviation.
    pub fn from_json(s: &str) -> (r: Option<Cliams>)
        ensures
            (match (r, cliams_parsed(s@)) {
                (Some(x), Some(v)) => x@ == v,
                (None, None) => true,
                _ => false,
            }),
    {
        let buf = str_chars(s);
        match scan_cliams(&buf, 0) {
            Some((x, j)) => {
                if scan_ws(&buf, j) == buf.len() {
                    Some(x)
                } else {
                    None
                }
            },
            None => None,
        }
    }
}

/// Scans the older claim shape, mirroring `parse_cliams`.
pub fn scan_cliams(v: &Vec<char>, i: usize) -> (r: Option<(Cliams, usize)>)
    requires
        i <= v.len(),
    ensures
        (match (r, parse_cliams(v@, i as int)) {
            (Some((x, j)), Some((sv, sj))) => x@ == sv && j as int == sj && j <= v.len(),
            (None, None) => true,
            _ => false,
        }),
{
    let i1 = match scan_sep(v, i, '{') {
        Some(j) => j,
        None => {
            return None;
        },
    };
    let i2 = match scan_key(v, i1, "\"exp\":") {
        Some(j) => j,
        None => {
            return None;
        },
    };
    let (exp, i3) = match scan_json_u64(v, i2) {
        Some(p) => p,
        None => {
            return None;
        },
    };
    let i4 = match scan_sep(v, i3, ',') {
        Some(j) => j,
        None => {
            return None;
        },
    };
    let i5 = match scan_key(v, i4, "\"iat\":") {
        Some(j) => j,
        None => {
            return None;
        },
    };
    let (iat, i6) = match scan_json_u64(v, i5) {
        Some(p) => p,
        None => {
            return None;
        },
    };
    let i7 = match scan_sep(v, i6, ',') {
        Some(j) => j,
        None => {
            return None;
        },
    };
    let i8 = match scan_key(v, i7, "\"email\":") {
        Some(j) => j,
        None => {
            return None;
        },
    };
    let (email, i9) = match scan_json_string(v, i8) {
        Some(p) => p,
        None => {
            return None;
        },
    };
    let i10 = match scan_sep(v, i9, '}') {
        Some(j) => j,
        None => {
            return None;
        },
    };
    Some((Cliams { exp, iat, email: chars_string(&email) }, i10))
}

/// Parsing inverts serialization for the older claim shape.
#[verifier::rlimit(100)]
pub proof fn lemma_parse_cliams_at(s: Seq<char>, i: int, c: CliamsV)
    requires
        0 <= i,
        i + cliams_json(c).len() <= s.len(),
        s.subrange(i, i + cliams_json(c).len()) == cliams_json(c),
    ensures
        parse_cliams(s, i) == Some((c, i + cliams_json(c).len())),
{
    reveal_strlit("\"exp\":");
    reveal_strlit("\"iat\":");
    reveal_strlit("\"email\":");
    let w = cliams_json(c);
    assert forall|t: int| i <= t < i + w.len() implies #[trigger] s[t] == w[t - i] by {
        assert(s.subrange(i, i + w.len())[t - i] == s[t]);
    }
    let j0 = i;
    let j1 = j0 + 1;
    let j2 = j1 + 6;
    let j3 = j2 + dec_digits(c.exp as nat).len();
    let j4 = j3 + 1;
    let j5 = j4 + 6;
    let j6 = j5 + dec_digits(c.iat as nat).len();
    let j7 = j6 + 1;
    let j8 = j7 + 8;
    let j9 = j8 + json_str(c.email).len();
    let j10 = j9 + 1;
    assert(w.len() == j10 - i);
    assert(s[j0] == '{');
    lemma_parse_sep_at(s, j0, '{');
    assert(s.subrange(j1, j1 + 6) =~= "\"exp\":"@);
    lemma_parse_key_at(s, j1, "\"exp\":"@);
    assert(s.subrange(j2, j3) =~= dec_digits(c.exp as nat));
    assert(s[j3] == ',');
    assert(!is_digit(','));
    lemma_parse_json_u64_at(s, j2, c.exp);
    lemma_parse_sep_at(s, j3, ',');
    assert(s.subrange(j4, j4 + 6) =~= "\"iat\":"@);
    lemma_parse_key_at(s, j4, "\"iat\":"@);
    assert(s.subrange(j5, j6) =~= dec_digits(c.iat as nat));
    assert(s[j6] == ',');
    lemma_parse_json_u64_at(s, j5, c.iat);
    lemma_parse_sep_at(s, j6, ',');
    assert(s.subrange(j7, j7 + 8) =~= "\"email\":"@);
    lemma_parse_key_at(s, j7, "\"email\":"@);
    assert(s.subrange(j8, j9) =~= json_str(c.email));
    lemma_parse_json_string_at(s, j8, c.email);
    assert(s[j9] == '}');
    lemma_parse_sep_at(s, j9, '}');
    assert(parse_cliams(s, i) == Some((c, i + w.len())));
}

/// The payload round trip for the older claim shape.
pub proof fn lemma_cliams_round_trip(c: CliamsV)
    ensures
        cliams_parsed(cliams_json(c)) == Some(c),
{
    let s = cliams_json(c);
    assert(s.subrange(0, s.len() as int) =~= s);
    lemma_parse_cliams_at(s, 0, c);
    assert(skip_ws(s, s.len() as int) == s.len());
}

} // verus!
