//! The process configuration as plain values. Reading the environment is
//! the caller's concern; this module holds the validated shape and the
//! parsing rule for the environment name.

use vstd::prelude::*;

use crate::text::{append_str, chars_string};

verus! {

/// Which environment the application runs in.
#[derive(Debug, Clone, Copy, PartialEq, Eq, Structural)]
pub enum Environment {
    Development,
    Production,
}

/// The message rejected environment names get.
pub open spec fn environment_error(s: Seq<char>) -> Seq<char> {
    "Invalid environment: "@ + s
        + ". Please make sure it is either \"development\" or \"production\"."@
}

impl Environment {
    /// Parses an environment name: exactly `development` or `production`;
    /// anything else is rejected with a message naming the input.
    pub fn parse(s: &str) -> (r: Result<Environment, String>)
        ensures
            s@ == "development"@ ==> r == Ok::<Environment, String>(Environment::Development),
            s@ == "production"@ ==> r == Ok::<Environment, String>(Environment::Production),
            (match r {
                Ok(e) => (s@ == "development"@ || s@ == "production"@),
                Err(m) => s@ != "development"@ && s@ != "production"@ && m@ == environment_error(
                    s@,
                ),
            }),
    {
        proof {
            reveal_strlit("development");
            reveal_strlit("production");
            assert("development"@.len() == 11);
            assert("production"@.len() == 10);
            assert("development"@ != "production"@);
        }
        let v = String::from_str(s);
        if v == String::from_str("development") {
            Ok(Environment::Development)
        } else if v == String::from_str("production") {
            Ok(Environment::Production)
        } else {
            let mut out: Vec<char> = Vec::new();
            append_str(&mut out, "Invalid environment: ");
            append_str(&mut out, s);
            append_str(
                &mut out,
                ". Please make sure it is either \"development\" or \"production\".",
            );
            let m = chars_string(&out);
            assert(m@ =~= environment_error(s@));
            Err(m)
        }
    }
}

/// The validated process configuration: environment, port, endpoints, and
/// database settings, all as plain values.
#[derive(Debug)]
pub struct Configuration {
    pub env: Environment,
    pub app_port: u16,
    pub graphql_endpoint: String,
    pub db_dsn: String,
    pub db_pool_max_size: u32,
    pub db_timeout: u64,
}

impl Configuration {
    /// Overrides the database connection string.
    pub fn set_dsn(&mut self, db_dsn: String)
        ensures
            final(self).db_dsn == db_dsn,
            final(self).env == old(self).env,
            final(self).app_port == old(self).app_port,
            final(self).graphql_endpoint == old(self).graphql_endpoint,
            final(self).db_pool_max_size == old(self).db_pool_max_size,
            final(self).db_timeout == old(self).db_timeout,
    {
        self.db_dsn = db_dsn;
    }
}

} // verus!
