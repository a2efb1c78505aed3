//! Application settings: where the service listens, how it reaches its
//! database, and which named environment a deployment runs in.
//!
//! Reading settings from files or the process environment happens outside
//! the library; these types only hold and render the values.

use vstd::prelude::*;
use vstd::string::*;
use crate::strutil::append_decimal_u16;
use crate::strutil::spec_decimal;

verus! {

pub struct Settings {
    pub database: DatabaseSettings,
    pub application: ApplicationSettings,
}

pub struct ApplicationSettings {
    pub port: u16,
    pub host: String,
}

pub struct DatabaseSettings {
    pub username: String,
    pub password: String,
    pub port: u16,
    pub host: String,
    pub database_name: String,
}

/// A named deployment environment.
#[derive(Clone, Copy, Debug, PartialEq, Eq, Structural)]
pub enum Environment {
    Local,
    Prod,
}

pub open spec fn spec_environment_str(e: Environment) -> Seq<char> {
    match e {
        Environment::Local => "local"@,
        Environment::Prod => "production"@,
    }
}

/// ASCII lowercasing of one character.
pub open spec fn spec_lower_char(c: char) -> char {
    if 65 <= c as int && c as int <= 90 {
        ((c as int) + 32) as char
    } else {
        c
    }
}

pub open spec fn spec_lower(s: Seq<char>) -> Seq<char> {
    s.map_values(|c: char| spec_lower_char(c))
}

/// Which environment a raw (case-insensitive, ASCII) value names.
pub open spec fn spec_environment_of(s: Seq<char>) -> Option<Environment> {
    if spec_lower(s) == "local"@ {
        Some(Environment::Local)
    } else if spec_lower(s) == "production"@ {
        Some(Environment::Prod)
    } else {
        None
    }
}

fn lower_char(c: char) -> (r: char)
    ensures
        r == spec_lower_char(c),
{
    let u = c as u32;
    if 65 <= u && u <= 90 {
        ((u + 32) as u8) as char
    } else {
        c
    }
}

fn eq_lower(s: &str, target: &str) -> (r: bool)
    ensures
        r == (spec_lower(s@) == target@),
{
    let n = s.unicode_len();
    let m = target.unicode_len();
    if n != m {
        proof {
            assert(spec_lower(s@).len() == s@.len());
        }
        return false;
    }
    let mut i: usize = 0;
    while i < n
        invariant
            n == s@.len(),
            n == target@.len(),
            i <= n,
            forall|j: int| 0 <= j < i ==> spec_lower_char(s@[j]) == target@[j],
        decreases n - i,
    {
        let c = lower_char(s.get_char(i));
        let d = target.get_char(i);
        if c != d {
            proof {
                assert(spec_lower(s@)[i as int] != target@[i as int]);
            }
            return false;
        }
        i += 1;
    }
    proof {
        assert(spec_lower(s@) =~= target@);
    }
    true
}

impl Environment {
    pub fn as_str(&self) -> (r: &'static str)
        ensures
            r@ == spec_environment_str(*self),
    {
        match self {
            Environment::Local => "local",
            Environment::Prod => "production",
        }
    }

    /// Accepts `local` and `production` in any ASCII case; any other value
    /// is reported back in the error message.
    pub fn try_from(s: String) -> (r: Result<Environment, String>)
        ensures
            match r {
                Ok(e) => spec_environment_of(s@) == Some(e),
                Err(msg) => spec_environment_of(s@) is None && msg@ == s@
                    + " is not a supported environment. Use 'local' or 'production'."@,
            },
    {
        if eq_lower(s.as_str(), "local") {
            Ok(Environment::Local)
        } else if eq_lower(s.as_str(), "production") {
            Ok(Environment::Prod)
        } else {
            Err(s.concat(" is not a supported environment. Use 'local' or 'production'."))
        }
    }
}

/// The connection string naming the configured database.
pub open spec fn spec_connection_string(d: &DatabaseSettings) -> Seq<char> {
    "postgres://"@ + d.username@ + ":"@ + d.password@ + "@"@ + d.host@ + ":"@ + spec_decimal(
        d.port as nat,
    ) + "/"@ + d.database_name@
}

/// The connection string for the server itself, without a database name.
pub open spec fn spec_connection_string_without_db(d: &DatabaseSettings) -> Seq<char> {
    "postgres://"@ + d.username@ + ":"@ + d.password@ + "@"@ + d.host@ + ":"@ + spec_decimal(
        d.port as nat,
    )
}

impl DatabaseSettings {
    pub fn connection_string(&self) -> (r: String)
        ensures
            r@ == spec_connection_string(self),
    {
        let mut r: String = "postgres://".to_owned();
        r.append(self.username.as_str());
        r.append(":");
        r.append(self.password.as_str());
        r.append("@");
        r.append(self.host.as_str());
        r.append(":");
        append_decimal_u16(&mut r, self.port);
        r.append("/");
        r.append(self.database_name.as_str());
        r
    }

    pub fn connection_string_without_db(&self) -> (r: String)
        ensures
            r@ == spec_connection_string_without_db(self),
    {
        let mut r: String = "postgres://".to_owned();
        r.append(self.username.as_str());
        r.append(":");
        r.append(self.password.as_str());
        r.append("@");
        r.append(self.host.as_str());
        r.append(":");
        append_decimal_u16(&mut r, self.port);
        r
    }
}

} // verus!
