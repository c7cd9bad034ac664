//! Account identifiers: random v4 ids and the normalization of id text,
//! behind trusted wrappers around the uuid crate.

use vstd::prelude::*;

verus! {

/// The canonical (lower-case, hyphenated) text of the id that the argument
/// denotes, or `None` when the argument is not an id. A function of the
/// argument alone.
pub uninterp spec fn uuid_norm(s: Seq<char>) -> Option<Seq<char>>;

/// Relies on `uuid::Uuid::new_v4` and its `Display`: a freshly drawn random
/// id in canonical text. Randomness allows no promise about the value; what
/// holds of every outcome is that canonical text normalizes to itself.
#[verifier::external_body]
pub(crate) fn new_uuid() -> (r: String)
    ensures
        uuid_norm(r@) == Some(r@),
{
    uuid::Uuid::new_v4().to_string()
}

/// Relies on `uuid::Uuid::parse_str` and its `Display`: the canonical text
/// of the id the argument denotes, `None` when it is not one. Canonical
/// output normalizes to itself.
#[verifier::external_body]
pub(crate) fn uuid_normalize(s: &str) -> (r: Option<String>)
    ensures
        (match r {
            Some(t) => uuid_norm(s@) == Some(t@) && uuid_norm(t@) == Some(t@),
            None => uuid_norm(s@) is None,
        }),
{
    uuid::Uuid::parse_str(s).ok().map(|u| u.to_string())
}

} // verus!
