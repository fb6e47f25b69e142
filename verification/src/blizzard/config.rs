//! Configuration of the API server.

use vstd::prelude::*;

verus! {

/// File the configuration is read from.
pub const CONF_FILE: &'static str = "config.kdl";
/// Prefix of the environment variables that override the configuration.
pub const ENV_PREFIX: &'static str = "BLIZZARD_";

/// How the server listens.
#[derive(Debug, Clone, Copy, PartialEq, Eq, Structural)]
pub enum Protocol {
    Unix,
    Tcp,
}

impl Default for Protocol {
    fn default() -> (p: Self)
        ensures
            p == Protocol::Tcp,
    {
        Protocol::Tcp
    }
}

/// Where the server listens: a socket path or a TCP address.
#[derive(Debug)]
pub struct Address {
    pub protocol: Protocol,
    pub path: String,
}

impl Default for Address {
    fn default() -> (a: Self)
        ensures
            a.protocol == Protocol::Tcp,
            a.path@ == "127.0.0.1:2999"@,
    {
        Address { protocol: Protocol::Tcp, path: "127.0.0.1:2999".to_owned() }
    }
}

/// Configuration of the API server.
#[derive(Debug)]
pub struct Config {
    pub database_url: String,
    pub listener: Address,
}

impl Default for Config {
    fn default() -> (c: Self)
        ensures
            c.database_url@ == "sqlite::memory:"@,
            c.listener.protocol == Protocol::Tcp,
            c.listener.path@ == "127.0.0.1:2999"@,
    {
        Config { database_url: "sqlite::memory:".to_owned(), listener: Address::default() }
    }
}

/// The listener the server binds.
#[derive(Debug)]
pub enum Listener {
    Unix(String),
    Tcp(String),
}

/// The listener for an address.
pub fn listener(addr: &Address) -> (l: Listener)
    ensures
        match addr.protocol {
            Protocol::Unix => l matches Listener::Unix(p) && p@ == addr.path@,
            Protocol::Tcp => l matches Listener::Tcp(p) && p@ == addr.path@,
        },
{
    match addr.protocol {
        Protocol::Unix => Listener::Unix(addr.path.clone()),
        Protocol::Tcp => Listener::Tcp(addr.path.clone()),
    }
}

/// The URL advertised in the API description: `http://<path>` for a TCP
/// listener, none for a Unix socket.
pub fn server_url(addr: &Address) -> (u: Option<String>)
    ensures
        match addr.protocol {
            Protocol::Tcp => u matches Some(s) && s@ == "http://"@ + addr.path@,
            Protocol::Unix => u is None,
        },
{
    match addr.protocol {
        Protocol::Tcp => {
            let mut s = "http://".to_owned();
            s.append(addr.path.as_str());
            Some(s)
        },
        Protocol::Unix => None,
    }
}

} // verus!
