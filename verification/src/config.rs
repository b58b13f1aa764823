//! Connection settings, and the rule by which a port is read from text.

use vstd::prelude::*;
use crate::error::DbError;

verus! {

/// Makes `core::num::ParseIntError` known to the verifier, as a value that is
/// carried and never looked into.
#[verifier::external_type_specification]
#[verifier::external_body]
pub struct ExParseIntError(core::num::ParseIntError);

/// Whether `c` is one of the ten ASCII digits.
pub open spec fn is_digit(c: char) -> bool {
    '0' <= c <= '9'
}

/// The number that a run of ASCII digits writes in base ten.
pub open spec fn digits_value(digits: Seq<char>) -> nat
    decreases digits.len(),
{
    if digits.len() == 0 {
        0
    } else {
        digits_value(digits.drop_last()) * 10 + (digits.last() as nat - '0' as nat) as nat
    }
}

/// A port's text without its optional leading `+`.
pub open spec fn unsigned_part(text: Seq<char>) -> Seq<char> {
    if text.len() > 0 && text[0] == '+' {
        text.drop_first()
    } else {
        text
    }
}

/// The port that `text` writes: an optional `+`, then at least one ASCII
/// digit and nothing else, with a value of at most 65535. Leading zeros are
/// allowed; spaces, `-` and `_` are not.
pub open spec fn port_value(text: Seq<char>) -> Option<u16> {
    let digits = unsigned_part(text);
    if digits.len() > 0 && (forall|i: int| 0 <= i < digits.len() ==> is_digit(#[trigger] digits[i]))
        && digits_value(digits) <= u16::MAX {
        Some(digits_value(digits) as u16)
    } else {
        None
    }
}

/// Calls `str::parse::<u16>`. Trusted: the result is `Ok` exactly for the
/// texts that std documents as accepted (an optional `+` sign followed by
/// only decimal digits, whose value fits), and then holds that value.
#[verifier::external_body]
fn parse_u16(text: &str) -> (parsed: Result<u16, core::num::ParseIntError>)
    ensures
        match parsed {
            Ok(value) => port_value(text@) == Some(value),
            Err(_) => port_value(text@) is None,
        },
{
    text.parse::<u16>()
}

/// Calls `ToString::to_string` on a `ParseIntError`. Trusted; nothing is
/// claimed of the text.
#[verifier::external_body]
fn parse_error_text(error: &core::num::ParseIntError) -> (text: String) {
    error.to_string()
}

/// Where and as whom to connect.
#[derive(Debug, Clone, PartialEq, Eq)]
pub struct ConnectionConfig {
    pub dbname: String,
    pub user: String,
    pub password: String,
    pub host: String,
    pub port: u16,
}

/// What a connection configuration holds, as plain values.
pub struct ConnectionModel {
    pub dbname: Seq<char>,
    pub user: Seq<char>,
    pub password: Seq<char>,
    pub host: Seq<char>,
    pub port: u16,
}

impl View for ConnectionConfig {
    type V = ConnectionModel;

    open spec fn view(&self) -> ConnectionModel {
        ConnectionModel {
            dbname: self.dbname@,
            user: self.user@,
            password: self.password@,
            host: self.host@,
            port: self.port,
        }
    }
}

impl ConnectionConfig {
    /// Reads a port from text. Fails with a configuration error exactly when
    /// the text writes no port.
    pub fn parse_port(port: &str) -> (parsed: Result<u16, DbError>)
        ensures
            match parsed {
                Ok(value) => port_value(port@) == Some(value),
                Err(e) => port_value(port@) is None && e is Configuration,
            },
    {
        match parse_u16(port) {
            Ok(value) => Ok(value),
            Err(e) => Err(DbError::Configuration(parse_error_text(&e))),
        }
    }

    /// Builds a configuration from the five fields as they are typed in.
    /// The four texts are copied as they are; only the port is read. Fails
    /// with a configuration error exactly when the port's text writes no
    /// port.
    pub fn from_fields(dbname: &str, user: &str, password: &str, host: &str, port: &str) -> (config:
        Result<ConnectionConfig, DbError>)
        ensures
            match config {
                Ok(c) => port_value(port@) == Some(c.port) && c@ == (ConnectionModel {
                    dbname: dbname@,
                    user: user@,
                    password: password@,
                    host: host@,
                    port: c.port,
                }),
                Err(e) => port_value(port@) is None && e is Configuration,
            },
    {
        match ConnectionConfig::parse_port(port) {
            Ok(value) => Ok(
                ConnectionConfig {
                    dbname: String::from_str(dbname),
                    user: String::from_str(user),
                    password: String::from_str(password),
                    host: String::from_str(host),
                    port: value,
                },
            ),
            Err(e) => Err(e),
        }
    }
}

} // verus!
