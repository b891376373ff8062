//! Configuration data: listen address, store connection parameters, the
//! two server secrets, and the environment selector.  Reading the
//! configuration sources is left to the surrounding program; the shapes
//! and the pure derivations live here.

use vstd::prelude::*;

use crate::text::dec_str;

verus! {

/// The two server-wide secrets: one keys password hashing, the other
/// signs tokens.
#[derive(Debug)]
pub struct Secrets {
    pub hash_secret: String,
    pub jwt_secret: String,
}

/// Where the HTTP server listens, with the secrets it serves under.
#[derive(Debug)]
pub struct ApplicationSettings {
    pub address: String,
    pub port: u16,
    pub hash_secret: String,
    pub jwt_secret: String,
    pub cors_origin: String,
}

impl ApplicationSettings {
    /// The `host:port` pair to bind.
    pub fn address(&self) -> (r: String)
        ensures
            r@ == self.address@ + ":"@ + dec_str(self.port as nat),
    {
        let mut r = self.address.clone();
        r.append(":");
        let port = crate::text::u64_to_string(self.port as u64);
        r.append(port.as_str());
        r
    }
}

/// The relational store's connection parameters.
#[derive(Debug)]
pub struct DatabaseSettings {
    pub host: String,
    pub port: u16,
    pub user: String,
    pub password: String,
    pub db_name: String,
}

impl DatabaseSettings {
    /// The connection string naming the database.
    pub fn get_connection_string(&self) -> (r: String)
        ensures
            r@ == "postgres://"@ + self.user@ + ":"@ + self.password@ + "@"@ + self.host@ + ":"@
                + dec_str(self.port as nat) + "/"@ + self.db_name@,
    {
        let mut r = String::from_str("postgres://");
        r.append(self.user.as_str());
        r.append(":");
        r.append(self.password.as_str());
        r.append("@");
        r.append(self.host.as_str());
        r.append(":");
        let port = crate::text::u64_to_string(self.port as u64);
        r.append(port.as_str());
        r.append("/");
        r.append(self.db_name.as_str());
        r
    }

    /// The connection string without a database name.
    pub fn get_connection_string_without_db(&self) -> (r: String)
        ensures
            r@ == "postgres://"@ + self.user@ + ":"@ + self.password@ + "@"@ + self.host@ + ":"@
                + dec_str(self.port as nat),
    {
        let mut r = String::from_str("postgres://");
        r.append(self.user.as_str());
        r.append(":");
        r.append(self.password.as_str());
        r.append("@");
        r.append(self.host.as_str());
        r.append(":");
        let port = crate::text::u64_to_string(self.port as u64);
        r.append(port.as_str());
        r
    }
}

/// The whole configuration tree.
#[derive(Debug)]
pub struct GlobalConfig {
    pub application: ApplicationSettings,
    pub database: DatabaseSettings,
}

/// The environment the process runs in.
#[derive(Clone, Copy, Debug, PartialEq, Eq, Structural)]
pub enum Env {
    Test,
    Development,
    Production,
}

impl Default for Env {
    fn default() -> (r: Self)
        ensures
            r == Env::Development,
    {
        Env::Development
    }
}

/// The code of `x` with an ASCII capital letter folded to lower case.
pub open spec fn lower_code(x: u32) -> u32 {
    if 65 <= x <= 90 {
        (x + 32) as u32
    } else {
        x
    }
}

/// Whether two strings agree up to ASCII letter case.
pub open spec fn eq_ignore_ascii_case_spec(a: Seq<char>, b: Seq<char>) -> bool {
    a.len() == b.len() && forall|i: int|
        0 <= i < a.len() ==> lower_code(#[trigger] a[i] as u32) == lower_code(b[i] as u32)
}

/// Compares two strings ignoring ASCII letter case.
pub fn eq_ignore_ascii_case(a: &str, b: &str) -> (r: bool)
    ensures
        r == eq_ignore_ascii_case_spec(a@, b@),
{
    let la = a.unicode_len();
    let lb = b.unicode_len();
    if la != lb {
        return false;
    }
    let mut i: usize = 0;
    while i < la
        invariant
            0 <= i <= la,
            la == a@.len(),
            la == b@.len(),
            forall|j: int|
                0 <= j < i ==> lower_code(#[trigger] a@[j] as u32) == lower_code(b@[j] as u32),
        decreases la - i,
    {
        let ca = a.get_char(i) as u32;
        let cb = b.get_char(i) as u32;
        let fa = if 65 <= ca && ca <= 90 {
            ca + 32
        } else {
            ca
        };
        let fb = if 65 <= cb && cb <= 90 {
            cb + 32
        } else {
            cb
        };
        if fa != fb {
            return false;
        }
        i = i + 1;
    }
    true
}

/// The environment a configuration value selects, compared ignoring ASCII
/// letter case.
pub open spec fn env_of(s: Seq<char>) -> Env {
    if eq_ignore_ascii_case_spec(s, "test"@) {
        Env::Test
    } else if eq_ignore_ascii_case_spec(s, "production"@) {
        Env::Production
    } else {
        Env::Development
    }
}

impl From<String> for Env {
    fn from(value: String) -> (r: Env) {
        if eq_ignore_ascii_case(value.as_str(), "test") {
            Env::Test
        } else if eq_ignore_ascii_case(value.as_str(), "production") {
            Env::Production
        } else {
            Env::Development
        }
    }
}

impl vstd::std_specs::convert::FromSpecImpl<String> for Env {
    open spec fn obeys_from_spec() -> bool {
        true
    }

    open spec fn from_spec(value: String) -> Env {
        env_of(value@)
    }
}

/// The configuration file each environment reads.
pub fn config_file_name(env: &Env) -> (r: &'static str)
    ensures
        *env == Env::Test ==> r@ == "config.test.yaml"@,
        *env == Env::Development ==> r@ == "config.dev.yaml"@,
        *env == Env::Production ==> r@ == "config.prod.yaml"@,
{
    match env {
        Env::Test => "config.test.yaml",
        Env::Development => "config.dev.yaml",
        Env::Production => "config.prod.yaml",
    }
}

} // verus!
