//! The health endpoint's body: a fixed `ok` status.

use vstd::prelude::*;

use crate::text::{append_json_string, append_str, chars_string, json_str};

verus! {

/// Body of the health endpoint.
#[derive(Debug)]
pub struct Healthy {
    pub status: String,
}

/// The wire form of the health body.
pub open spec fn healthy_json(status: Seq<char>) -> Seq<char> {
    seq!['{'] + "\"status\":"@ + json_str(status) + seq!['}']
}

impl Healthy {
    /// Serializes the body to its exact wire form.
    pub fn to_json(&self) -> (r: String)
        ensures
            r@ == healthy_json(self.status@),
    {
        let mut out: Vec<char> = Vec::new();
        out.push('{');
        append_str(&mut out, "\"status\":");
        append_json_string(&mut out, self.status.as_str());
        out.push('}');
        assert(out@ =~= healthy_json(self.status@));
        chars_string(&out)
    }
}

/// The health check: always `ok`.
pub fn index() -> (r: Healthy)
    ensures
        r.status@ == "ok"@,
{
    Healthy { status: String::from_str("ok") }
}

} // verus!
