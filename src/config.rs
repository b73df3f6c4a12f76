//! Database settings read from the configuration file.
use vstd::prelude::*;
use crate::text::{parse_unsigned, unsigned_text};

verus! {

/// Where and as whom to connect to the database.
#[derive(Clone, Debug, PartialEq, Eq)]
pub struct Database {
    pub database: String,
    pub user: String,
    pub password: String,
    pub host: String,
    pub port: Option<u16>,
}

/// The port a configured text names: an unsigned decimal up to 65535, else none.
pub open spec fn port_of(s: Seq<char>) -> Option<u16> {
    if unsigned_text(s) is Some && unsigned_text(s)->0 <= u16::MAX {
        Some(unsigned_text(s)->0 as u16)
    } else {
        None
    }
}

/// Reads a configured port; text that is no port leaves the default in place.
pub fn parse_port(s: &str) -> (r: Option<u16>)
    ensures
        r == port_of(s@),
{
    match parse_unsigned(s, 65535) {
        Some(v) => Some(v as u16),
        None => None,
    }
}

impl Database {
    /// A host that starts with `/` names the directory of a local socket.
    pub fn is_unix_socket(&self) -> (r: bool)
        ensures
            r == (self.host@.len() > 0 && self.host@[0] == '/'),
    {
        self.host.as_str().unicode_len() > 0 && self.host.as_str().get_char(0) == '/'
    }
}

} // verus!
