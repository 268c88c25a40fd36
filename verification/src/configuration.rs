//! Typed application settings. Loading them — configuration files plus
//! environment overrides — and turning the database settings into driver
//! options is infrastructure around the library; the types and the binding
//! address they determine live here.

use vstd::prelude::*;

use crate::text::chars_to_string;
use crate::text::push_chars;

verus! {

/// Everything the process needs to run.
pub struct Settings {
    pub application: ApplicationSettings,
    pub database: DatabaseSettings,
    pub email_client: EmailClientSettings,
}

/// The HTTP server's own settings.
pub struct ApplicationSettings {
    pub base_url: String,
    pub host: String,
    pub max_pending_connections: u32,
    pub port: u16,
}

/// Connection parameters of the database.
pub struct DatabaseSettings {
    pub connect_timeout_seconds: u64,
    pub name: String,
    pub host: String,
    pub max_db_connections: u32,
    pub password: String,
    pub port: u16,
    pub require_ssl: bool,
    pub username: String,
}

/// Settings of the outbound email client.
pub struct EmailClientSettings {
    pub base_url: String,
    pub sender_email: String,
    pub timeout_secs: u64,
    pub token: String,
}

/// The decimal digit character for `d`.
pub open spec fn spec_digit(d: int) -> char {
    if d == 0 {
        '0'
    } else if d == 1 {
        '1'
    } else if d == 2 {
        '2'
    } else if d == 3 {
        '3'
    } else if d == 4 {
        '4'
    } else if d == 5 {
        '5'
    } else if d == 6 {
        '6'
    } else if d == 7 {
        '7'
    } else if d == 8 {
        '8'
    } else {
        '9'
    }
}

/// The decimal digits of a non-negative number, most significant first,
/// without leading zeroes (zero itself is `"0"`).
pub open spec fn spec_decimal(n: int) -> Seq<char>
    decreases n,
{
    if n < 0 {
        Seq::empty()
    } else if n < 10 {
        seq![spec_digit(n)]
    } else {
        spec_decimal(n / 10).push(spec_digit(n % 10))
    }
}

fn digit_char(d: u16) -> (c: char)
    requires
        d < 10,
    ensures
        c == spec_digit(d as int),
{
    if d == 0 {
        '0'
    } else if d == 1 {
        '1'
    } else if d == 2 {
        '2'
    } else if d == 3 {
        '3'
    } else if d == 4 {
        '4'
    } else if d == 5 {
        '5'
    } else if d == 6 {
        '6'
    } else if d == 7 {
        '7'
    } else if d == 8 {
        '8'
    } else {
        '9'
    }
}

/// Appends the decimal rendering of `n`.
fn push_decimal(out: &mut Vec<char>, n: u16)
    ensures
        final(out)@ == old(out)@ + spec_decimal(n as int),
    decreases n,
{
    if n >= 10 {
        push_decimal(out, n / 10);
    }
    out.push(digit_char(n % 10));
    proof {
        assert(out@ =~= old(out)@ + spec_decimal(n as int));
    }
}

impl ApplicationSettings {
    /// The `host:port` address the listener binds to.
    pub fn binding_address(&self) -> (r: String)
        ensures
            r@ == self.host@ + seq![':'] + spec_decimal(self.port as int),
    {
        let mut out: Vec<char> = Vec::new();
        push_chars(&mut out, self.host.as_str());
        out.push(':');
        push_decimal(&mut out, self.port);
        proof {
            assert(out@ =~= self.host@ + seq![':'] + spec_decimal(self.port as int));
        }
        chars_to_string(out)
    }
}

} // verus!
