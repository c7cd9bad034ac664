//! The closed error taxonomy of the API, with its exhaustive mapping to
//! status codes and outward-facing messages.
//!
//! `Unauthorized` and `Forbidden` are kept distinct throughout: the former
//! means the caller's identity is unknown, the latter that a known identity
//! lacks the required role.

use vstd::prelude::*;

use crate::text::{append_str, append_json_string, append_u64, chars_string, dec_digits, json_str};

verus! {

/// Every error the API surfaces, as a closed set so that status-code
/// derivation is exhaustive.
#[derive(Debug, Clone, PartialEq, Eq)]
pub enum ApiError {
    /// Malformed or invalid input from the client.
    InvalidRequest(String),
    /// The addressed entity does not exist.
    NotFound(String),
    /// A known identity without the required role.
    Forbidden(String),
    /// A missing, invalid, or expired token: the caller is unknown.
    Unauthorized(String),
    /// Registration against an email that is already taken.
    DuplicateEmail(String),
    /// Hashing, signing, or another unexpected internal failure.
    InternalError(String),
}

impl ApiError {
    /// The status code of each error class.
    pub open spec fn spec_status(&self) -> u16 {
        match self {
            ApiError::InvalidRequest(_) => 400,
            ApiError::Unauthorized(_) => 401,
            ApiError::Forbidden(_) => 403,
            ApiError::NotFound(_) => 404,
            ApiError::DuplicateEmail(_) => 409,
            ApiError::InternalError(_) => 500,
        }
    }

    /// The outward-facing message. Internal failures carry a fixed text so
    /// that no internal detail leaks to API consumers.
    pub open spec fn spec_message(&self) -> Seq<char> {
        match self {
            ApiError::InvalidRequest(m) => "Invalid request: "@ + m@,
            ApiError::Unauthorized(m) => "Unauthorized: "@ + m@,
            ApiError::Forbidden(m) => "Forbidden: "@ + m@,
            ApiError::NotFound(m) => "Not Found: "@ + m@,
            ApiError::DuplicateEmail(m) => "Conflict: "@ + m@,
            ApiError::InternalError(_) => "An internal server error has occurred."@,
        }
    }

    /// Returns the status code for this error.
    pub fn status_code(&self) -> (r: u16)
        ensures
            r == self.spec_status(),
    {
        match self {
            ApiError::InvalidRequest(_) => 400,
            ApiError::Unauthorized(_) => 401,
            ApiError::Forbidden(_) => 403,
            ApiError::NotFound(_) => 404,
            ApiError::DuplicateEmail(_) => 409,
            ApiError::InternalError(_) => 500,
        }
    }

    /// Returns the outward-facing message.
    pub fn message(&self) -> (r: String)
        ensures
            r@ == self.spec_message(),
    {
        let (prefix, detail): (&str, Option<&String>) = match self {
            ApiError::InvalidRequest(m) => ("Invalid request: ", Some(m)),
            ApiError::Unauthorized(m) => ("Unauthorized: ", Some(m)),
            ApiError::Forbidden(m) => ("Forbidden: ", Some(m)),
            ApiError::NotFound(m) => ("Not Found: ", Some(m)),
            ApiError::DuplicateEmail(m) => ("Conflict: ", Some(m)),
            ApiError::InternalError(_) => ("An internal server error has occurred.", None),
        };
        let mut out = String::from_str(prefix);
        match detail {
            Some(m) => {
                out.append(m.as_str());
            },
            None => {},
        }
        out
    }

    /// Builds the response body for this error.
    pub fn to_resp(&self) -> (r: ApiErrorResp)
        ensures
            r.status == self.spec_status(),
            r.message@ == self.spec_message(),
    {
        ApiErrorResp { status: self.status_code(), message: self.message() }
    }
}

/// The generic response body every error is rendered to.
#[derive(Debug)]
pub struct ApiErrorResp {
    pub status: u16,
    pub message: String,
}

/// The wire form of an error response.
pub open spec fn api_error_resp_json(status: u16, message: Seq<char>) -> Seq<char> {
    seq!['{'] + "\"status\":"@ + dec_digits(status as nat) + seq![','] + "\"message\":"@ + json_str(
        message,
    ) + seq!['}']
}

impl ApiErrorResp {
    /// Serializes the response to its exact wire form.
    pub fn to_json(&self) -> (r: String)
        ensures
            r@ == api_error_resp_json(self.status, self.message@),
    {
        let mut out: Vec<char> = Vec::new();
        out.push('{');
        append_str(&mut out, "\"status\":");
        append_u64(&mut out, self.status as u64);
        out.push(',');
        append_str(&mut out, "\"message\":");
        append_json_string(&mut out, self.message.as_str());
        out.push('}');
        assert(out@ =~= api_error_resp_json(self.status, self.message@));
        chars_string(&out)
    }
}

} // verus!
