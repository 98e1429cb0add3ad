//! Typed runtime settings and the connection-options builder. Loading them
//! from files or the environment is the surrounding process's work; the
//! library owns the shapes and what they render to.

use vstd::prelude::*;
use vstd::string::StrSliceExecFns;
use vstd::string::StringExecFns;
use crate::domain::{SubscriberEmail, is_valid_email};
use crate::strutil::{dec_rep, push_decimal};

verus! {

/// Every setting the application reads at startup.
#[derive(Debug)]
pub struct Settings {
    pub database: DatabaseSettings,
    pub application: ApplicationSettings,
    pub email_client: EmailClientSettings,
}

/// How to reach the relational store.
#[derive(Debug)]
pub struct DatabaseSettings {
    pub username: String,
    pub password: String,
    pub port: u16,
    pub host: String,
    pub database_name: String,
    pub ssl_mode: PostgresSslMode,
}

/// Where the web tier listens.
#[derive(Debug)]
pub struct ApplicationSettings {
    pub port: u16,
    pub host: String,
}

/// How to reach the email dispatch service.
#[derive(Debug)]
pub struct EmailClientSettings {
    pub base_url: String,
    pub sender_email: String,
    pub authorization_token: String,
    pub timeout_milliseconds: u64,
}

impl EmailClientSettings {
    /// The configured sender address, held to the same syntax rule as a
    /// subscriber's.
    pub fn sender(&self) -> (r: Result<SubscriberEmail, String>)
        ensures
            (r is Ok) == is_valid_email(self.sender_email@),
            r matches Ok(e) ==> e@ == self.sender_email@,
    {
        SubscriberEmail::parse(self.sender_email.clone())
    }

    /// The dispatch timeout, in milliseconds.
    pub fn timeout(&self) -> (r: u64)
        ensures
            r == self.timeout_milliseconds,
    {
        self.timeout_milliseconds
    }
}

/// The base URL under which confirmation links are minted.
#[derive(Debug)]
pub struct ApplicationBaseUrl(pub String);

/// An ASCII uppercase letter.
pub open spec fn ascii_upper(c: char) -> bool {
    65 <= c as u32 && c as u32 <= 90
}

/// Two characters equal up to ASCII case.
pub open spec fn eq_ic_char(a: char, b: char) -> bool {
    ||| a == b
    ||| (ascii_upper(a) && a as u32 + 32 == b as u32)
    ||| (ascii_upper(b) && b as u32 + 32 == a as u32)
}

/// Two strings equal up to ASCII case.
pub open spec fn eq_ignore_ascii_case(s: Seq<char>, t: Seq<char>) -> bool {
    s.len() == t.len() && forall|i: int| 0 <= i < s.len() ==> eq_ic_char(#[trigger] s[i], t[i])
}

fn chars_eq_ic(a: char, b: char) -> (r: bool)
    ensures
        r == eq_ic_char(a, b),
{
    a == b || ((a as u32) >= 65 && (a as u32) <= 90 && (a as u32) + 32 == (b as u32)) || ((
    b as u32) >= 65 && (b as u32) <= 90 && (b as u32) + 32 == (a as u32))
}

fn str_eq_ignore_ascii_case(s: &str, t: &str) -> (r: bool)
    ensures
        r == eq_ignore_ascii_case(s@, t@),
{
    let n = s.unicode_len();
    if n != t.unicode_len() {
        return false;
    }
    let mut i: usize = 0;
    while i < n
        invariant
            i <= n,
            n == s@.len(),
            n == t@.len(),
            forall|j: int| 0 <= j < i ==> eq_ic_char(#[trigger] s@[j], t@[j]),
        decreases n - i,
    {
        if !chars_eq_ic(s.get_char(i), t.get_char(i)) {
            return false;
        }
        i = i + 1;
    }
    true
}

/// Which deployment flavour the process runs as.
#[derive(Clone, Copy, Debug)]
pub enum Environment {
    Local,
    Production,
}

impl Environment {
    /// The configuration file stem for this flavour.
    pub fn as_str(&self) -> (r: &'static str)
        ensures
            self is Local ==> r@ == "local"@,
            self is Production ==> r@ == "production"@,
    {
        match self {
            Environment::Local => "local",
            Environment::Production => "production",
        }
    }

    /// Reads a flavour name, ASCII-case-insensitively; anything else is
    /// rejected with an explanatory message.
    pub fn parse(s: &str) -> (r: Result<Environment, String>)
        ensures
            (r is Ok) == (eq_ignore_ascii_case(s@, "local"@) || eq_ignore_ascii_case(
                s@,
                "production"@,
            )),
            eq_ignore_ascii_case(s@, "local"@) ==> (r matches Ok(e) && e is Local),
            eq_ignore_ascii_case(s@, "production"@) ==> (r matches Ok(e) && e is Production),
            r matches Err(m) ==> m@ == s@
                + " is not a supported environment. Use either `local` or `production`."@,
    {
        proof {
            reveal_strlit("local");
            reveal_strlit("production");
        }
        if str_eq_ignore_ascii_case(s, "local") {
            Ok(Environment::Local)
        } else if str_eq_ignore_ascii_case(s, "production") {
            Ok(Environment::Production)
        } else {
            Err(
                String::from_str(s).concat(
                    " is not a supported environment. Use either `local` or `production`.",
                ),
            )
        }
    }
}

/// The TLS posture requested of the store connection.
#[derive(Clone, Copy, Debug)]
pub enum PostgresSslMode {
    Disable,
    Allow,
    Prefer,
    Require,
    VerifyCa,
    VerifyFull,
}

impl PostgresSslMode {
    /// The token this mode renders to in a connection URL.
    pub open spec fn spec_str(self) -> Seq<char> {
        match self {
            PostgresSslMode::Disable => "disable"@,
            PostgresSslMode::Allow => "allow"@,
            PostgresSslMode::Prefer => "prefer"@,
            PostgresSslMode::Require => "require"@,
            PostgresSslMode::VerifyCa => "verify_ca"@,
            PostgresSslMode::VerifyFull => "verify_full"@,
        }
    }

    /// Renders the mode for a connection URL.
    pub fn as_str(&self) -> (r: &'static str)
        ensures
            r@ == self.spec_str(),
    {
        match self {
            PostgresSslMode::Disable => "disable",
            PostgresSslMode::Allow => "allow",
            PostgresSslMode::Prefer => "prefer",
            PostgresSslMode::Require => "require",
            PostgresSslMode::VerifyCa => "verify_ca",
            PostgresSslMode::VerifyFull => "verify_full",
        }
    }
}

impl Default for PostgresSslMode {
    /// The mode used when none is set.
    fn default() -> (r: Self)
        ensures
            r is Prefer,
    {
        PostgresSslMode::Prefer
    }
}

/// A builder for the pieces of a store connection URL.
#[derive(Debug)]
pub struct ConnectOptions {
    pub host: Option<String>,
    pub username: Option<String>,
    pub password: Option<String>,
    pub port: Option<u16>,
    pub database: Option<String>,
    pub ssl_mode: Option<PostgresSslMode>,
}

impl ConnectOptions {
    /// A builder with nothing set.
    pub fn new() -> (r: Self)
        ensures
            r.host is None,
            r.username is None,
            r.password is None,
            r.port is None,
            r.database is None,
            r.ssl_mode is None,
    {
        ConnectOptions {
            host: None,
            username: None,
            password: None,
            port: None,
            database: None,
            ssl_mode: None,
        }
    }

    /// Sets the host; every other piece is kept.
    pub fn host(self, host: &str) -> (r: Self)
        ensures
            r.host matches Some(h) && h@ == host@,
            r.username == self.username,
            r.password == self.password,
            r.port == self.port,
            r.database == self.database,
            r.ssl_mode == self.ssl_mode,
    {
        let ConnectOptions { host: _, username, password, port, database, ssl_mode } = self;
        ConnectOptions {
            host: Some(String::from_str(host)),
            username,
            password,
            port,
            database,
            ssl_mode,
        }
    }

    /// Sets the username; every other piece is kept.
    pub fn username(self, username: &str) -> (r: Self)
        ensures
            r.username matches Some(u) && u@ == username@,
            r.host == self.host,
            r.password == self.password,
            r.port == self.port,
            r.database == self.database,
            r.ssl_mode == self.ssl_mode,
    {
        let ConnectOptions { host, username: _, password, port, database, ssl_mode } = self;
        ConnectOptions {
            host,
            username: Some(String::from_str(username)),
            password,
            port,
            database,
            ssl_mode,
        }
    }

    /// Sets the password; every other piece is kept.
    pub fn password(self, password: &str) -> (r: Self)
        ensures
            r.password matches Some(p) && p@ == password@,
            r.host == self.host,
            r.username == self.username,
            r.port == self.port,
            r.database == self.database,
            r.ssl_mode == self.ssl_mode,
    {
        let ConnectOptions { host, username, password: _, port, database, ssl_mode } = self;
        ConnectOptions {
            host,
            username,
            password: Some(String::from_str(password)),
            port,
            database,
            ssl_mode,
        }
    }

    /// Sets the port; every other piece is kept.
    pub fn port(self, port: u16) -> (r: Self)
        ensures
            r.port == Some(port),
            r.host == self.host,
            r.username == self.username,
            r.password == self.password,
            r.database == self.database,
            r.ssl_mode == self.ssl_mode,
    {
        let ConnectOptions { host, username, password, port: _, database, ssl_mode } = self;
        ConnectOptions { host, username, password, port: Some(port), database, ssl_mode }
    }

    /// Sets the database name; every other piece is kept.
    pub fn database(self, database: &str) -> (r: Self)
        ensures
            r.database matches Some(d) && d@ == database@,
            r.host == self.host,
            r.username == self.username,
            r.password == self.password,
            r.port == self.port,
            r.ssl_mode == self.ssl_mode,
    {
        let ConnectOptions { host, username, password, port, database: _, ssl_mode } = self;
        ConnectOptions {
            host,
            username,
            password,
            port,
            database: Some(String::from_str(database)),
            ssl_mode,
        }
    }

    /// Sets the TLS posture; every other piece is kept.
    pub fn ssl_mode(self, ssl_mode: PostgresSslMode) -> (r: Self)
        ensures
            r.ssl_mode == Some(ssl_mode),
            r.host == self.host,
            r.username == self.username,
            r.password == self.password,
            r.port == self.port,
            r.database == self.database,
    {
        let ConnectOptions { host, username, password, port, database, ssl_mode: _ } = self;
        ConnectOptions { host, username, password, port, database, ssl_mode: Some(ssl_mode) }
    }

    /// The URL the set pieces render to; the unset TLS posture falls back
    /// to `prefer`, and the database segment appears only when set.
    pub open spec fn spec_url(self) -> Seq<char> {
        let username = match self.username {
            Option::Some(u) => u@,
            Option::None => Seq::empty(),
        };
        let password = match self.password {
            Option::Some(p) => p@,
            Option::None => Seq::empty(),
        };
        let host = match self.host {
            Option::Some(h) => h@,
            Option::None => Seq::empty(),
        };
        let port = match self.port {
            Option::Some(p) => p as nat,
            Option::None => 0,
        };
        let base = "postgres://"@ + username + ":"@ + password + "@"@ + host + ":"@ + dec_rep(
            port,
        );
        let with_db = match self.database {
            Option::Some(d) => base + "/"@ + d@,
            Option::None => base,
        };
        let mode = match self.ssl_mode {
            Option::Some(m) => m,
            Option::None => PostgresSslMode::Prefer,
        };
        with_db + "?sslmode="@ + mode.spec_str()
    }

    /// Renders the connection URL. The username, password, host and port
    /// must have been set, as the process that opens the connection relies
    /// on them.
    pub fn url(&self) -> (r: String)
        requires
            self.username is Some,
            self.password is Some,
            self.host is Some,
            self.port is Some,
        ensures
            r@ == self.spec_url(),
    {
        let mut s = String::from_str("postgres://");
        match &self.username {
            Some(u) => s.append(u.as_str()),
            None => {
                proof {
                    assert(false);
                }
            },
        }
        s.append(":");
        match &self.password {
            Some(p) => s.append(p.as_str()),
            None => {
                proof {
                    assert(false);
                }
            },
        }
        s.append("@");
        match &self.host {
            Some(h) => s.append(h.as_str()),
            None => {
                proof {
                    assert(false);
                }
            },
        }
        s.append(":");
        let port = match self.port {
            Some(p) => p,
            None => {
                proof {
                    assert(false);
                }
                0
            },
        };
        push_decimal(&mut s, port);
        match &self.database {
            Some(d) => {
                s.append("/");
                s.append(d.as_str());
            },
            None => {},
        }
        s.append("?sslmode=");
        let mode = match self.ssl_mode {
            Some(m) => m,
            None => PostgresSslMode::Prefer,
        };
        s.append(mode.as_str());
        proof {
            assert(s@ =~= self.spec_url());
        }
        s
    }
}

impl Default for ConnectOptions {
    /// A builder with nothing set.
    fn default() -> (r: Self)
        ensures
            r.host is None,
            r.username is None,
            r.password is None,
            r.port is None,
            r.database is None,
            r.ssl_mode is None,
    {
        ConnectOptions::new()
    }
}

impl DatabaseSettings {
    /// The connection pieces without a database segment, for server-level
    /// work.
    pub fn without_db(&self) -> (r: ConnectOptions)
        ensures
            r.host matches Some(h) && h@ == self.host@,
            r.username matches Some(u) && u@ == self.username@,
            r.password matches Some(p) && p@ == self.password@,
            r.port == Some(self.port),
            r.database is None,
            r.ssl_mode == Some(self.ssl_mode),
    {
        ConnectOptions::new().host(self.host.as_str()).username(self.username.as_str()).password(
            self.password.as_str(),
        ).port(self.port).ssl_mode(self.ssl_mode)
    }

    /// The connection pieces with the configured database segment.
    pub fn with_db(&self) -> (r: ConnectOptions)
        ensures
            r.host matches Some(h) && h@ == self.host@,
            r.username matches Some(u) && u@ == self.username@,
            r.password matches Some(p) && p@ == self.password@,
            r.port == Some(self.port),
            r.database matches Some(d) && d@ == self.database_name@,
            r.ssl_mode == Some(self.ssl_mode),
    {
        self.without_db().database(self.database_name.as_str())
    }
}

} // verus!
