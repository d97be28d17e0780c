use vstd::prelude::*;

verus! {

/// Where the service listens and which database it uses.
#[derive(Clone, Debug)]
pub struct Config {
    pub database_url: String,
    pub server_host: String,
    pub server_port: u16,
}

/// A setting that cannot be used.
#[derive(Clone, Copy, Debug, PartialEq, Eq, Structural)]
pub enum ConfigError {
    /// No database connection string was given.
    MissingDatabaseUrl,
    /// The port is not a number from 0 to 65535.
    InvalidPort,
}

/// The digit `d` (below ten) as a character.
pub open spec fn digit_char(d: nat) -> char {
    "0123456789"@[d as int]
}

/// `n` written in decimal, without leading zeros.
pub open spec fn decimal(n: nat) -> Seq<char>
    decreases n,
{
    if n < 10 {
        seq![digit_char(n)]
    } else {
        decimal(n / 10) + seq![digit_char(n % 10)]
    }
}

/// `c` is a decimal digit.
pub open spec fn is_digit(c: char) -> bool {
    '0' <= c && c <= '9'
}

/// The value of the decimal digits `s`.
pub open spec fn digits_value(s: Seq<char>) -> int
    decreases s.len(),
{
    if s.len() == 0 {
        0
    } else {
        digits_value(s.drop_last()) * 10 + (s.last() as int - '0' as int)
    }
}

/// The number that `s` writes as an optional `+` and one or more decimal
/// digits, if it is written so.
pub open spec fn unsigned_value(s: Seq<char>) -> Option<int> {
    let d = if s.len() > 0 && s[0] == '+' {
        s.drop_first()
    } else {
        s
    };
    if d.len() > 0 && forall|i: int| 0 <= i < d.len() ==> is_digit(#[trigger] d[i]) {
        Some(digits_value(d))
    } else {
        None
    }
}

/// Relies on `u16`'s `Display`: decimal digits without leading zeros.
#[verifier::external_body]
fn port_text(port: u16) -> (r: String)
    ensures
        r@ == decimal(port as nat),
{
    port.to_string()
}

/// Relies on `str::parse::<u16>`: an optional `+` and decimal digits whose
/// value fits in a `u16`; anything else is an error.
#[verifier::external_body]
fn parse_port(s: &str) -> (r: Option<u16>)
    ensures
        r == (match unsigned_value(s@) {
            Some(v) => if v <= u16::MAX {
                Some(v as u16)
            } else {
                None::<u16>
            },
            None => None::<u16>,
        }),
{
    s.parse::<u16>().ok()
}

impl Config {
    /// The host used when none is given.
    pub open spec fn default_host() -> Seq<char> {
        "127.0.0.1"@
    }

    /// The port used when none is given.
    pub open spec fn default_port() -> u16 {
        3000
    }

    /// A configuration from the given settings: the database connection
    /// string is required; the host defaults to 127.0.0.1 and the port to
    /// 3000; a port that is given must be a number from 0 to 65535.
    pub fn from_settings(
        database_url: Option<String>,
        server_host: Option<String>,
        server_port: Option<String>,
    ) -> (r: Result<Config, ConfigError>)
        ensures
            database_url is None ==> r == Err::<Config, ConfigError>(ConfigError::MissingDatabaseUrl),
            database_url is Some ==> match server_port {
                Some(p) => match unsigned_value(p@) {
                    Some(v) => if v <= u16::MAX {
                        r is Ok && r->Ok_0.server_port == v as u16
                    } else {
                        r == Err::<Config, ConfigError>(ConfigError::InvalidPort)
                    },
                    None => r == Err::<Config, ConfigError>(ConfigError::InvalidPort),
                },
                None => r is Ok && r->Ok_0.server_port == Self::default_port(),
            },
            r matches Ok(c) ==> Some(c.database_url) == database_url && match server_host {
                Some(h) => c.server_host == h,
                None => c.server_host@ == Self::default_host(),
            },
    {
        let database_url = match database_url {
            Some(u) => u,
            None => {
                return Err(ConfigError::MissingDatabaseUrl);
            },
        };
        let server_host = match server_host {
            Some(h) => h,
            None => String::from_str("127.0.0.1"),
        };
        let server_port = match server_port {
            Some(p) => match parse_port(p.as_str()) {
                Some(v) => v,
                None => {
                    return Err(ConfigError::InvalidPort);
                },
            },
            None => 3000,
        };
        Ok(Config { database_url, server_host, server_port })
    }

    /// The listening address, `host:port`.
    pub fn server_addr(&self) -> (r: String)
        ensures
            r@ == self.server_host@ + ":"@ + decimal(self.server_port as nat),
    {
        let mut addr = self.server_host.clone();
        addr.append(":");
        let port = port_text(self.server_port);
        addr.append(port.as_str());
        addr
    }
}

} // verus!
