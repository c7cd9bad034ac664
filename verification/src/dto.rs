//! Request and response bodies of the authentication and user endpoints,
//! with their exact JSON wire forms.
//!
//! Serialization is specified down to the character: `to_json` produces
//! exactly the sequence the `*_json` spec functions describe, and `from_json`
//! accepts exactly what the `parse_*` spec functions accept (the emitted
//! form, with optional whitespace between tokens).

use vstd::prelude::*;

use crate::text::{
    append_json_string, append_str, chars_string, json_opt_str, json_str,
    lemma_parse_json_opt_str_at, lemma_parse_json_string_at, lemma_parse_key_at,
    lemma_parse_sep_at, parse_json_string, parse_json_opt_string, parse_key, parse_sep,
    scan_json_string, scan_json_opt_string, scan_key, scan_sep, scan_ws, skip_ws, str_chars,
};

verus! {

// ---------------------------------------------------------------------------
// login
// ---------------------------------------------------------------------------

/// Body of the login endpoint.
#[derive(Debug)]
pub struct LoginRequest {
    pub email: String,
    pub password: String,
}

pub ghost struct LoginRequestV {
    pub email: Seq<char>,
    pub password: Seq<char>,
}

impl View for LoginRequest {
    type V = LoginRequestV;

    open spec fn view(&self) -> LoginRequestV {
        LoginRequestV { email: self.email@, password: self.password@ }
    }
}

/// The wire form of a login request.
pub open spec fn login_request_json(v: LoginRequestV) -> Seq<char> {
    seq!['{'] + "\"email\":"@ + json_str(v.email) + seq![','] + "\"password\":"@ + json_str(
        v.password,
    ) + seq!['}']
}

pub open spec fn parse_login_request(s: Seq<char>, i: int) -> Option<(LoginRequestV, int)> {
    match parse_sep(s, i, '{') {
        None => None,
        Some(i1) => match parse_key(s, i1, "\"email\":"@) {
            None => None,
            Some(i2) => match parse_json_string(s, i2) {
                None => None,
                Some((email, i3)) => match parse_sep(s, i3, ',') {
                    None => None,
                    Some(i4) => match parse_key(s, i4, "\"password\":"@) {
                        None => None,
                        Some(i5) => match parse_json_string(s, i5) {
                            None => None,
                            Some((password, i6)) => match parse_sep(s, i6, '}') {
                                None => None,
                                Some(i7) => Some((LoginRequestV { email, password }, i7)),
                            },
                        },
                    },
                },
            },
        },
    }
}

/// A whole-string parse: the request followed only by whitespace.
pub open spec fn login_request_parsed(s: Seq<char>) -> Option<LoginRequestV> {
    match parse_login_request(s, 0) {
        Some((v, j)) => if skip_ws(s, j) == s.len() {
            Some(v)
        } else {
            None
        },
        None => None,
    }
}

impl LoginRequest {
    /// Serializes the request to its exact wire form.
    pub fn to_json(&self) -> (r: String)
        ensures
            r@ == login_request_json(self@),
    {
        let mut out: Vec<char> = Vec::new();
        out.push('{');
        append_str(&mut out, "\"email\":");
        append_json_string(&mut out, self.email.as_str());
        out.push(',');
        append_str(&mut out, "\"password\":");
        append_json_string(&mut out, self.password.as_str());
        out.push('}');
        assert(out@ =~= login_request_json(self@));
        chars_string(&out)
    }

    /// Parses a request from its wire form; `None` on any deviation.
    pub fn from_json(s: &str) -> (r: Option<LoginRequest>)
        ensures
            (match (r, login_request_parsed(s@)) {
                (Some(x), Some(v)) => x@ == v,
                (None, None) => true,
                _ => false,
            }),
    {
        let buf = str_chars(s);
        match scan_login_request(&buf, 0) {
            Some((x, j)) => {
                if scan_ws(&buf, j) == buf.len() {
                    Some(x)
                } else {
                    None
                }
            },
            None => None,
        }
    }
}

/// Scans a login request, mirroring `parse_login_request`.
pub fn scan_login_request(v: &Vec<char>, i: usize) -> (r: Option<(LoginRequest, usize)>)
    requires
        i <= v.len(),
    ensures
        (match (r, parse_login_request(v@, i as int)) {
            (Some((x, j)), Some((sv, sj))) => x@ == sv && j as int == sj && j <= v.len(),
            (None, None) => true,
            _ => false,
        }),
{
    let i1 = match scan_sep(v, i, '{') {
        Some(j) => j,
        None => {
            return None;
        },
    };
    let i2 = match scan_key(v, i1, "\"email\":") {
        Some(j) => j,
        None => {
            return None;
        },
    };
    let (email, i3) = match scan_json_string(v, i2) {
        Some(p) => p,
        None => {
            return None;
        },
    };
    let i4 = match scan_sep(v, i3, ',') {
        Some(j) => j,
        None => {
            return None;
        },
    };
    let i5 = match scan_key(v, i4, "\"password\":") {
        Some(j) => j,
        None => {
            return None;
        },
    };
    let (password, i6) = match scan_json_string(v, i5) {
        Some(p) => p,
        None => {
            return None;
        },
    };
    let i7 = match scan_sep(v, i6, '}') {
        Some(j) => j,
        None => {
            return None;
        },
    };
    Some((LoginRequest { email: chars_string(&email), password: chars_string(&password) }, i7))
}

// ---------------------------------------------------------------------------
// registration
// ---------------------------------------------------------------------------

/// Body of the registration endpoint.
#[derive(Debug)]
pub struct RegisterRequest {
    pub email: String,
    pub password: String,
    pub name: String,
}

pub ghost struct RegisterRequestV {
    pub email: Seq<char>,
    pub password: Seq<char>,
    pub name: Seq<char>,
}

impl View for RegisterRequest {
    type V = RegisterRequestV;

    open spec fn view(&self) -> RegisterRequestV {
        RegisterRequestV { email: self.email@, password: self.password@, name: self.name@ }
    }
}

/// The wire form of a registration request.
pub open spec fn register_request_json(v: RegisterRequestV) -> Seq<char> {
    seq!['{'] + "\"email\":"@ + json_str(v.email) + seq![','] + "\"password\":"@ + json_str(
        v.password,
    ) + seq![','] + "\"name\":"@ + json_str(v.name) + seq!['}']
}

pub open spec fn parse_register_request(s: Seq<char>, i: int) -> Option<(RegisterRequestV, int)> {
    match parse_sep(s, i, '{') {
        None => None,
        Some(i1) => match parse_key(s, i1, "\"email\":"@) {
            None => None,
            Some(i2) => match parse_json_string(s, i2) {
                None => None,
                Some((email, i3)) => match parse_sep(s, i3, ',') {
                    None => None,
                    Some(i4) => match parse_key(s, i4, "\"password\":"@) {
                        None => None,
                        Some(i5) => match parse_json_string(s, i5) {
                            None => None,
                            Some((password, i6)) => match parse_sep(s, i6, ',') {
                                None => None,
                                Some(i7) => match parse_key(s, i7, "\"name\":"@) {
                                    None => None,
                                    Some(i8) => match parse_json_string(s, i8) {
                                        None => None,
                                        Some((name, i9)) => match parse_sep(s, i9, '}') {
                                            None => None,
                                            Some(i10) => Some(
                                                (RegisterRequestV { email, password, name }, i10),
                                            ),
                                        },
                                    },
                                },
                            },
                        },
                    },
                },
            },
        },
    }
}

pub open spec fn register_request_parsed(s: Seq<char>) -> Option<RegisterRequestV> {
    match parse_register_request(s, 0) {
        Some((v, j)) => if skip_ws(s, j) == s.len() {
            Some(v)
        } else {
            None
        },
        None => None,
    }
}

impl RegisterRequest {
    /// Serializes the request to its exact wire form.
    pub fn to_json(&self) -> (r: String)
        ensures
            r@ == register_request_json(self@),
    {
        let mut out: Vec<char> = Vec::new();
        out.push('{');
        append_str(&mut out, "\"email\":");
        append_json_string(&mut out, self.email.as_str());
        out.push(',');
        append_str(&mut out, "\"password\":");
        append_json_string(&mut out, self.password.as_str());
        out.push(',');
        append_str(&mut out, "\"name\":");
        append_json_string(&mut out, self.name.as_str());
        out.push('}');
        assert(out@ =~= register_request_json(self@));
        chars_string(&out)
    }

    /// Parses a request from its wire form; `None` on any deviation.
    pub fn from_json(s: &str) -> (r: Option<RegisterRequest>)
        ensures
            (match (r, register_request_parsed(s@)) {
                (Some(x), Some(v)) => x@ == v,
                (None, None) => true,
                _ => false,
            }),
    {
        let buf = str_chars(s);
        match scan_register_request(&buf, 0) {
            Some((x, j)) => {
                if scan_ws(&buf, j) == buf.len() {
                    Some(x)
                } else {
                    None
                }
            },
            None => None,
        }
    }
}

/// Scans a registration request, mirroring `parse_register_request`.
pub fn scan_register_request(v: &Vec<char>, i: usize) -> (r: Option<(RegisterRequest, usize)>)
    requires
        i <= v.len(),
    ensures
        (match (r, parse_register_request(v@, i as int)) {
            (Some((x, j)), Some((sv, sj))) => x@ == sv && j as int == sj && j <= v.len(),
            (None, None) => true,
            _ => false,
        }),
{
    let i1 = match scan_sep(v, i, '{') {
        Some(j) => j,
        None => {
            return None;
        },
    };
    let i2 = match scan_key(v, i1, "\"email\":") {
        Some(j) => j,
        None => {
            return None;
        },
    };
    let (email, i3) = match scan_json_string(v, i2) {
        Some(p) => p,
        None => {
            return None;
        },
    };
    let i4 = match scan_sep(v, i3, ',') {
        Some(j) => j,
        None => {
            return None;
        },
    };
    let i5 = match scan_key(v, i4, "\"password\":") {
        Some(j) => j,
        None => {
            return None;
        },
    };
    let (password, i6) = match scan_json_string(v, i5) {
        Some(p) => p,
        None => {
            return None;
        },
    };
    let i7 = match scan_sep(v, i6, ',') {
        Some(j) => j,
        None => {
            return None;
        },
    };
    let i8 = match scan_key(v, i7, "\"name\":") {
        Some(j) => j,
        None => {
            return None;
        },
    };
    let (name, i9) = match scan_json_string(v, i8) {
        Some(p) => p,
        None => {
            return None;
        },
    };
    let i10 = match scan_sep(v, i9, '}') {
        Some(j) => j,
        None => {
            return None;
        },
    };
    Some(
        (
            RegisterRequest {
                email: chars_string(&email),
                password: chars_string(&password),
                name: chars_string(&name),
            },
            i10,
        ),
    )
}

// ---------------------------------------------------------------------------
// user creation
// ---------------------------------------------------------------------------

/// Body of the user-creation endpoint.
#[derive(Debug)]
pub struct UserCreate {
    pub email: String,
    pub password: String,
    pub name: String,
}

pub ghost struct UserCreateV {
    pub email: Seq<char>,
    pub password: Seq<char>,
    pub name: Seq<char>,
}

impl View for UserCreate {
    type V = UserCreateV;

    open spec fn view(&self) -> UserCreateV {
        UserCreateV { email: self.email@, password: self.password@, name: self.name@ }
    }
}

/// The wire form of a user-creation request; the same shape as registration.
pub open spec fn user_create_json(v: UserCreateV) -> Seq<char> {
    seq!['{'] + "\"email\":"@ + json_str(v.email) + seq![','] + "\"password\":"@ + json_str(
        v.password,
    ) + seq![','] + "\"name\":"@ + json_str(v.name) + seq!['}']
}

pub open spec fn user_create_parsed(s: Seq<char>) -> Option<UserCreateV> {
    match parse_register_request(s, 0) {
        Some((v, j)) => if skip_ws(s, j) == s.len() {
            Some(UserCreateV { email: v.email, password: v.password, name: v.name })
        } else {
            None
        },
        None => None,
    }
}

impl UserCreate {
    /// Serializes the request to its exact wire form.
    pub fn to_json(&self) -> (r: String)
        ensures
            r@ == user_create_json(self@),
    {
        let mut out: Vec<char> = Vec::new();
        out.push('{');
        append_str(&mut out, "\"email\":");
        append_json_string(&mut out, self.email.as_str());
        out.push(',');
        append_str(&mut out, "\"password\":");
        append_json_string(&mut out, self.password.as_str());
        out.push(',');
        append_str(&mut out, "\"name\":");
        append_json_string(&mut out, self.name.as_str());
        out.push('}');
        assert(out@ =~= user_create_json(self@));
        chars_string(&out)
    }

    /// Parses a request from its wire form; `None` on any deviation.
    pub fn from_json(s: &str) -> (r: Option<UserCreate>)
        ensures
            (match (r, user_create_parsed(s@)) {
                (Some(x), Some(v)) => x@ == v,
                (None, None) => true,
                _ => false,
            }),
    {
        let buf = str_chars(s);
        match scan_register_request(&buf, 0) {
            Some((x, j)) => {
                if scan_ws(&buf, j) == buf.len() {
                    Some(UserCreate { email: x.email, password: x.password, name: x.name })
                } else {
                    None
                }
            },
            None => None,
        }
    }
}

// ---------------------------------------------------------------------------
// user projection
// ---------------------------------------------------------------------------

/// The redacted, outward-facing projection of an account. It never carries
/// the password hash.
#[derive(Debug)]
pub struct UserDto {
    pub id: String,
    pub email: String,
    pub name: String,
    pub status: String,
    pub role: String,
    pub created_at: Option<String>,
    pub updated_at: Option<String>,
}

pub ghost struct UserDtoV {
    pub id: Seq<char>,
    pub email: Seq<char>,
    pub name: Seq<char>,
    pub status: Seq<char>,
    pub role: Seq<char>,
    pub created_at: Option<Seq<char>>,
    pub updated_at: Option<Seq<char>>,
}

impl View for UserDto {
    type V = UserDtoV;

    open spec fn view(&self) -> UserDtoV {
        UserDtoV {
            id: self.id@,
            email: self.email@,
            name: self.name@,
            status: self.status@,
            role: self.role@,
            created_at: (match self.created_at {
                Option::Some(ref s) => Option::Some(s@),
                Option::None => Option::None,
            }),
            updated_at: (match self.updated_at {
                Option::Some(ref s) => Option::Some(s@),
                Option::None => Option::None,
            }),
        }
    }
}

impl Clone for UserDto {
    fn clone(&self) -> (r: Self)
        ensures
            r@ == self@,
    {
        UserDto {
            id: self.id.clone(),
            email: self.email.clone(),
            name: self.name.clone(),
            status: self.status.clone(),
            role: self.role.clone(),
            created_at: (match &self.created_at {
                Option::Some(s) => Option::Some(s.clone()),
                Option::None => Option::None,
            }),
            updated_at: (match &self.updated_at {
                Option::Some(s) => Option::Some(s.clone()),
                Option::None => Option::None,
            }),
        }
    }
}

impl Default for UserDto {
    /// An all-empty projection.
    fn default() -> (r: Self)
        ensures
            r@.id.len() == 0,
            r@.email.len() == 0,
            r@.name.len() == 0,
            r@.status.len() == 0,
            r@.role.len() == 0,
            r@.created_at is None,
            r@.updated_at is None,
    {
        UserDto {
            id: String::new(),
            email: String::new(),
            name: String::new(),
            status: String::new(),
            role: String::new(),
            created_at: Option::None,
            updated_at: Option::None,
        }
    }
}

/// The wire form of the user projection.
pub open spec fn user_dto_json(v: UserDtoV) -> Seq<char> {
    seq!['{'] + "\"id\":"@ + json_str(v.id) + seq![','] + "\"email\":"@ + json_str(v.email)
        + seq![','] + "\"name\":"@ + json_str(v.name) + user_dto_json_tail(v)
}

/// The wire form from the `status` field on.
pub open spec fn user_dto_json_tail(v: UserDtoV) -> Seq<char> {
    seq![','] + "\"status\":"@ + json_str(v.status) + seq![','] + "\"role\":"@ + json_str(
        v.role,
    ) + user_dto_json_tail2(v)
}

/// The wire form from the `created_at` field on.
pub open spec fn user_dto_json_tail2(v: UserDtoV) -> Seq<char> {
    seq![','] + "\"created_at\":"@ + json_opt_str(v.created_at) + seq![','] + "\"updated_at\":"@
        + json_opt_str(v.updated_at) + seq!['}']
}

pub open spec fn parse_user_dto(s: Seq<char>, i: int) -> Option<(UserDtoV, int)> {
    match parse_sep(s, i, '{') {
        None => None,
        Some(i1) => match parse_key(s, i1, "\"id\":"@) {
            None => None,
            Some(i2) => match parse_json_string(s, i2) {
                None => None,
                Some((id, i3)) => match parse_sep(s, i3, ',') {
                    None => None,
                    Some(i4) => match parse_key(s, i4, "\"email\":"@) {
                        None => None,
                        Some(i5) => match parse_json_string(s, i5) {
                            None => None,
                            Some((email, i6)) => match parse_sep(s, i6, ',') {
                                None => None,
                                Some(i7) => match parse_key(s, i7, "\"name\":"@) {
                                    None => None,
                                    Some(i8) => match parse_json_string(s, i8) {
                                        None => None,
                                        Some((name, i9)) => parse_user_dto_tail(
                                            s,
                                            i9,
                                            id,
                                            email,
                                            name,
                                        ),
                                    },
                                },
                            },
                        },
                    },
                },
            },
        },
    }
}

/// Continues `parse_user_dto` after the `name` field.
pub open spec fn parse_user_dto_tail(
    s: Seq<char>,
    i: int,
    id: Seq<char>,
    email: Seq<char>,
    name: Seq<char>,
) -> Option<(UserDtoV, int)> {
    match parse_sep(s, i, ',') {
        None => None,
        Some(i1) => match parse_key(s, i1, "\"status\":"@) {
            None => None,
            Some(i2) => match parse_json_string(s, i2) {
                None => None,
                Some((status, i3)) => match parse_sep(s, i3, ',') {
                    None => None,
                    Some(i4) => match parse_key(s, i4, "\"role\":"@) {
                        None => None,
                        Some(i5) => match parse_json_string(s, i5) {
                            None => None,
                            Some((role, i6)) => parse_user_dto_tail2(
                                s,
                                i6,
                                id,
                                email,
                                name,
                                status,
                                role,
                            ),
                        },
                    },
                },
            },
        },
    }
}

/// Continues `parse_user_dto_tail` after the `role` field.
pub open spec fn parse_user_dto_tail2(
    s: Seq<char>,
    i: int,
    id: Seq<char>,
    email: Seq<char>,
    name: Seq<char>,
    status: Seq<char>,
    role: Seq<char>,
) -> Option<(UserDtoV, int)> {
    match parse_sep(s, i, ',') {
        None => None,
        Some(i1) => match parse_key(s, i1, "\"created_at\":"@) {
            None => None,
            Some(i2) => match parse_json_opt_string(s, i2) {
                None => None,
                Some((created_at, i3)) => match parse_sep(s, i3, ',') {
                    None => None,
                    Some(i4) => match parse_key(s, i4, "\"updated_at\":"@) {
                        None => None,
                        Some(i5) => match parse_json_opt_string(s, i5) {
                            None => None,
                            Some((updated_at, i6)) => match parse_sep(s, i6, '}') {
                                None => None,
                                Some(i7) => Some(
                                    (
                                        UserDtoV {
                                            id,
                                            email,
                                            name,
                                            status,
                                            role,
                                            created_at,
                                            updated_at,
                                        },
                                        i7,
                                    ),
                                ),
                            },
                        },
                    },
                },
            },
        },
    }
}

pub open spec fn user_dto_parsed(s: Seq<char>) -> Option<UserDtoV> {
    match parse_user_dto(s, 0) {
        Some((v, j)) => if skip_ws(s, j) == s.len() {
            Some(v)
        } else {
            None
        },
        None => None,
    }
}

impl UserDto {
    /// Serializes the projection to its exact wire form.
    #[verifier::rlimit(60)]
    pub fn to_json(&self) -> (r: String)
        ensures
            r@ == user_dto_json(self@),
    {
        let mut out: Vec<char> = Vec::new();
        out.push('{');
        append_str(&mut out, "\"id\":");
        append_json_string(&mut out, self.id.as_str());
        out.push(',');
        append_str(&mut out, "\"email\":");
        append_json_string(&mut out, self.email.as_str());
        out.push(',');
        append_str(&mut out, "\"name\":");
        append_json_string(&mut out, self.name.as_str());
        out.push(',');
        append_str(&mut out, "\"status\":");
        append_json_string(&mut out, self.status.as_str());
        out.push(',');
        append_str(&mut out, "\"role\":");
        append_json_string(&mut out, self.role.as_str());
        out.push(',');
        append_str(&mut out, "\"created_at\":");
        append_json_opt_string(&mut out, &self.created_at);
        out.push(',');
        append_str(&mut out, "\"updated_at\":");
        append_json_opt_string(&mut out, &self.updated_at);
        out.push('}');
        assert(out@ =~= user_dto_json(self@));
        chars_string(&out)
    }

    /// Parses a projection from its wire form; `None` on any deviation.
    pub fn from_json(s: &str) -> (r: Option<UserDto>)
        ensures
            (match (r, user_dto_parsed(s@)) {
                (Some(x), Some(v)) => x@ == v,
                (None, None) => true,
                _ => false,
            }),
    {
        let buf = str_chars(s);
        match scan_user_dto(&buf, 0) {
            Some((x, j)) => {
                if scan_ws(&buf, j) == buf.len() {
                    Some(x)
                } else {
                    None
                }
            },
            None => None,
        }
    }
}

/// Appends `null` or a JSON string.
fn append_json_opt_string(out: &mut Vec<char>, o: &Option<String>)
    ensures
        final(out)@ == old(out)@ + json_opt_str(
            (match o {
                Option::Some(s) => Option::Some(s@),
                Option::None => Option::None,
            }),
        ),
{
    match o {
        Option::Some(s) => {
            append_json_string(out, s.as_str());
            assert(out@ =~= old(out)@ + json_str(s@));
        },
        Option::None => {
            append_str(out, "null");
        },
    }
}

/// Scans a user projection, mirroring `parse_user_dto`.
pub fn scan_user_dto(v: &Vec<char>, i: usize) -> (r: Option<(UserDto, usize)>)
    requires
        i <= v.len(),
    ensures
        (match (r, parse_user_dto(v@, i as int)) {
            (Some((x, j)), Some((sv, sj))) => x@ == sv && j as int == sj && j <= v.len(),
            (None, None) => true,
            _ => false,
        }),
{
    let i1 = match scan_sep(v, i, '{') {
        Some(j) => j,
        None => {
            return None;
        },
    };
    let i2 = match scan_key(v, i1, "\"id\":") {
        Some(j) => j,
        None => {
            return None;
        },
    };
    let (id, i3) = match scan_json_string(v, i2) {
        Some(p) => p,
        None => {
            return None;
        },
    };
    let i4 = match scan_sep(v, i3, ',') {
        Some(j) => j,
        None => {
            return None;
        },
    };
    let i5 = match scan_key(v, i4, "\"email\":") {
        Some(j) => j,
        None => {
            return None;
        },
    };
    let (email, i6) = match scan_json_string(v, i5) {
        Some(p) => p,
        None => {
            return None;
        },
    };
    let i7 = match scan_sep(v, i6, ',') {
        Some(j) => j,
        None => {
            return None;
        },
    };
    let i8 = match scan_key(v, i7, "\"name\":") {
        Some(j) => j,
        None => {
            return None;
        },
    };
    let (name, i9) = match scan_json_string(v, i8) {
        Some(p) => p,
        None => {
            return None;
        },
    };
    let i10 = match scan_sep(v, i9, ',') {
        Some(j) => j,
        None => {
            return None;
        },
    };
    let i11 = match scan_key(v, i10, "\"status\":") {
        Some(j) => j,
        None => {
            return None;
        },
    };
    let (status, i12) = match scan_json_string(v, i11) {
        Some(p) => p,
        None => {
            return None;
        },
    };
    let i13 = match scan_sep(v, i12, ',') {
        Some(j) => j,
        None => {
            return None;
        },
    };
    let i14 = match scan_key(v, i13, "\"role\":") {
        Some(j) => j,
        None => {
            return None;
        },
    };
    let (role, i15) = match scan_json_string(v, i14) {
        Some(p) => p,
        None => {
            return None;
        },
    };
    let i16 = match scan_sep(v, i15, ',') {
        Some(j) => j,
        None => {
            return None;
        },
    };
    let i17 = match scan_key(v, i16, "\"created_at\":") {
        Some(j) => j,
        None => {
            return None;
        },
    };
    let (created_at, i18) = match scan_json_opt_string(v, i17) {
        Some(p) => p,
        None => {
            return None;
        },
    };
    let i19 = match scan_sep(v, i18, ',') {
        Some(j) => j,
        None => {
            return None;
        },
    };
    let i20 = match scan_key(v, i19, "\"updated_at\":") {
        Some(j) => j,
        None => {
            return None;
        },
    };
    let (updated_at, i21) = match scan_json_opt_string(v, i20) {
        Some(p) => p,
        None => {
            return None;
        },
    };
    let i22 = match scan_sep(v, i21, '}') {
        Some(j) => j,
        None => {
            return None;
        },
    };
    let dto = UserDto {
        id: chars_string(&id),
        email: chars_string(&email),
        name: chars_string(&name),
        status: chars_string(&status),
        role: chars_string(&role),
        created_at: (match &created_at {
            Some(c) => Some(chars_string(c)),
            None => None,
        }),
        updated_at: (match &updated_at {
            Some(c) => Some(chars_string(c)),
            None => None,
        }),
    };
    Some((dto, i22))
}

/// Continuation of `lemma_parse_user_dto_tail_at` from `created_at` on.
#[verifier::rlimit(100)]
#[verifier::spinoff_prover]
pub proof fn lemma_parse_user_dto_tail2_at(s: Seq<char>, i: int, u: UserDtoV)
    requires
        0 <= i,
        i + user_dto_json_tail2(u).len() <= s.len(),
        s.subrange(i, i + user_dto_json_tail2(u).len()) == user_dto_json_tail2(u),
    ensures
        parse_user_dto_tail2(s, i, u.id, u.email, u.name, u.status, u.role) == Some(
            (u, i + user_dto_json_tail2(u).len()),
        ),
{
    reveal_strlit("\"created_at\":");
    reveal_strlit("\"updated_at\":");
    let w = user_dto_json_tail2(u);
    assert forall|t: int| i <= t < i + w.len() implies #[trigger] s[t] == w[t - i] by {
        assert(s.subrange(i, i + w.len())[t - i] == s[t]);
    }
    let j0 = i;
    let j1 = j0 + 1;
    let j2 = j1 + 13;
    let j3 = j2 + json_opt_str(u.created_at).len();
    let j4 = j3 + 1;
    let j5 = j4 + 13;
    let j6 = j5 + json_opt_str(u.updated_at).len();
    let j7 = j6 + 1;
    assert(w.len() == j7 - i);
    assert(s[j0] == ',');
    lemma_parse_sep_at(s, j0, ',');
    assert(s.subrange(j1, j1 + 13) =~= "\"created_at\":"@);
    lemma_parse_key_at(s, j1, "\"created_at\":"@);
    assert(s.subrange(j2, j3) =~= json_opt_str(u.created_at));
    lemma_parse_json_opt_str_at(s, j2, u.created_at);
    assert(s[j3] == ',');
    lemma_parse_sep_at(s, j3, ',');
    assert(s.subrange(j4, j4 + 13) =~= "\"updated_at\":"@);
    lemma_parse_key_at(s, j4, "\"updated_at\":"@);
    assert(s.subrange(j5, j6) =~= json_opt_str(u.updated_at));
    lemma_parse_json_opt_str_at(s, j5, u.updated_at);
    assert(s[j6] == '}');
    lemma_parse_sep_at(s, j6, '}');
    assert(parse_user_dto_tail2(s, i, u.id, u.email, u.name, u.status, u.role) == Some(
        (u, i + w.len()),
    ));
}

/// Continuation of `lemma_parse_user_dto_at` from the `status` field on.
#[verifier::rlimit(100)]
#[verifier::spinoff_prover]
pub proof fn lemma_parse_user_dto_tail_at(s: Seq<char>, i: int, u: UserDtoV)
    requires
        0 <= i,
        i + user_dto_json_tail(u).len() <= s.len(),
        s.subrange(i, i + user_dto_json_tail(u).len()) == user_dto_json_tail(u),
    ensures
        parse_user_dto_tail(s, i, u.id, u.email, u.name) == Some(
            (u, i + user_dto_json_tail(u).len()),
        ),
{
    reveal_strlit("\"status\":");
    reveal_strlit("\"role\":");
    let w = user_dto_json_tail(u);
    assert forall|t: int| i <= t < i + w.len() implies #[trigger] s[t] == w[t - i] by {
        assert(s.subrange(i, i + w.len())[t - i] == s[t]);
    }
    let j0 = i;
    let j1 = j0 + 1;
    let j2 = j1 + 9;
    let j3 = j2 + json_str(u.status).len();
    let j4 = j3 + 1;
    let j5 = j4 + 7;
    let j6 = j5 + json_str(u.role).len();
    let j7 = j6 + user_dto_json_tail2(u).len();
    assert(w.len() == j7 - i);
    assert(s[j0] == ',');
    lemma_parse_sep_at(s, j0, ',');
    assert(s.subrange(j1, j1 + 9) =~= "\"status\":"@);
    lemma_parse_key_at(s, j1, "\"status\":"@);
    assert(s.subrange(j2, j3) =~= json_str(u.status));
    lemma_parse_json_string_at(s, j2, u.status);
    assert(s[j3] == ',');
    lemma_parse_sep_at(s, j3, ',');
    assert(s.subrange(j4, j4 + 7) =~= "\"role\":"@);
    lemma_parse_key_at(s, j4, "\"role\":"@);
    assert(s.subrange(j5, j6) =~= json_str(u.role));
    lemma_parse_json_string_at(s, j5, u.role);
    assert(s.subrange(j6, j7) =~= user_dto_json_tail2(u));
    lemma_parse_user_dto_tail2_at(s, j6, u);
    assert(parse_user_dto_tail(s, i, u.id, u.email, u.name) == Some((u, i + w.len())));
}

/// Parsing inverts serialization: wherever the text holds the wire form of
/// `u`, the parser recovers `u` exactly.
#[verifier::rlimit(100)]
#[verifier::spinoff_prover]
pub proof fn lemma_parse_user_dto_at(s: Seq<char>, i: int, u: UserDtoV)
    requires
        0 <= i,
        i + user_dto_json(u).len() <= s.len(),
        s.subrange(i, i + user_dto_json(u).len()) == user_dto_json(u),
    ensures
        parse_user_dto(s, i) == Some((u, i + user_dto_json(u).len())),
{
    reveal_strlit("\"id\":");
    reveal_strlit("\"email\":");
    reveal_strlit("\"name\":");
    let w = user_dto_json(u);
    assert forall|t: int| i <= t < i + w.len() implies #[trigger] s[t] == w[t - i] by {
        assert(s.subrange(i, i + w.len())[t - i] == s[t]);
    }
    let j0 = i;
    let j1 = j0 + 1;
    let j2 = j1 + 5;
    let j3 = j2 + json_str(u.id).len();
    let j4 = j3 + 1;
    let j5 = j4 + 8;
    let j6 = j5 + json_str(u.email).len();
    let j7 = j6 + 1;
    let j8 = j7 + 7;
    let j9 = j8 + json_str(u.name).len();
    let j10 = j9 + user_dto_json_tail(u).len();
    assert(w.len() == j10 - i);
    assert(s[j0] == '{');
    lemma_parse_sep_at(s, j0, '{');
    assert(s.subrange(j1, j1 + 5) =~= "\"id\":"@);
    lemma_parse_key_at(s, j1, "\"id\":"@);
    assert(s.subrange(j2, j3) =~= json_str(u.id));
    lemma_parse_json_string_at(s, j2, u.id);
    assert(s[j3] == ',');
    lemma_parse_sep_at(s, j3, ',');
    assert(s.subrange(j4, j4 + 8) =~= "\"email\":"@);
    lemma_parse_key_at(s, j4, "\"email\":"@);
    assert(s.subrange(j5, j6) =~= json_str(u.email));
    lemma_parse_json_string_at(s, j5, u.email);
    assert(s[j6] == ',');
    lemma_parse_sep_at(s, j6, ',');
    assert(s.subrange(j7, j7 + 7) =~= "\"name\":"@);
    lemma_parse_key_at(s, j7, "\"name\":"@);
    assert(s.subrange(j8, j9) =~= json_str(u.name));
    lemma_parse_json_string_at(s, j8, u.name);
    assert(s.subrange(j9, j10) =~= user_dto_json_tail(u));
    lemma_parse_user_dto_tail_at(s, j9, u);
    assert(parse_user_dto(s, i) == Some((u, i + w.len())));
}

// ---------------------------------------------------------------------------
// authentication response
// ---------------------------------------------------------------------------

/// Body returned by registration and login: the signed token and the
/// redacted profile.
#[derive(Debug)]
pub struct AuthResponse {
    pub token: String,
    pub user: UserDto,
}

pub ghost struct AuthResponseV {
    pub token: Seq<char>,
    pub user: UserDtoV,
}

impl View for AuthResponse {
    type V = AuthResponseV;

    open spec fn view(&self) -> AuthResponseV {
        AuthResponseV { token: self.token@, user: self.user@ }
    }
}

/// The wire form of an authentication response.
pub open spec fn auth_response_json(v: AuthResponseV) -> Seq<char> {
    seq!['{'] + "\"token\":"@ + json_str(v.token) + seq![','] + "\"user\":"@ + user_dto_json(
        v.user,
    ) + seq!['}']
}

impl AuthResponse {
    /// Serializes the response to its exact wire form.
    pub fn to_json(&self) -> (r: String)
        ensures
            r@ == auth_response_json(self@),
    {
        let mut out: Vec<char> = Vec::new();
        out.push('{');
        append_str(&mut out, "\"token\":");
        append_json_string(&mut out, self.token.as_str());
        out.push(',');
        append_str(&mut out, "\"user\":");
        let user_json = self.user.to_json();
        append_str(&mut out, user_json.as_str());
        out.push('}');
        assert(out@ =~= auth_response_json(self@));
        chars_string(&out)
    }
}

} // verus!
