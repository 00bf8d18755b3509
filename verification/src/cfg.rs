//! The server's configuration, as read from `config.toml` and `APP_`
//! environment variables.
use vstd::prelude::*;
use crate::codec::{i64_to_decimal, int_decimal};
use crate::text::{from_chars, push_str, to_chars};

verus! {

/// The whole configuration.
#[derive(Debug)]
pub struct Config {
    pub server: Server,
    pub general: General,
    pub database: Database,
}

/// Where the server listens.
#[derive(Debug)]
pub struct Server {
    pub host: String,
    pub port: u16,
}

/// Site-wide settings.
#[derive(Debug)]
pub struct General {
    pub title: String,
    pub dev: bool,
}

/// The database connection.
#[derive(Debug)]
pub struct Database {
    pub url: String,
}

impl Server {
    /// The listening address as text, `host:port`, to be parsed as a socket address.
    pub fn addr(&self) -> (r: String)
        ensures
            r@ == self.host@ + ":"@ + int_decimal(self.port as int),
    {
        let mut r = from_chars(&to_chars(self.host.as_str()));
        push_str(&mut r, ":");
        let p = i64_to_decimal(self.port as i64);
        push_str(&mut r, p.as_str());
        r
    }
}

} // verus!
