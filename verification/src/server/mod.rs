//! The service's configuration and the server that runs it.
use vstd::prelude::*;
use crate::text::{decimal, push_decimal};

pub mod cache;

verus! {

/// How the server is set up.
#[derive(Clone)]
pub struct ServerConfiguration {
    /// The TCP port to listen on.
    pub port: i64,
    /// Whether the cache keeps its entries in memory only.
    pub memory_only_cache: bool,
    /// The directory of the file-backed cache.
    pub cache_path: String,
}

impl Default for ServerConfiguration {
    fn default() -> (r: Self)
        ensures
            r.port == 0,
            !r.memory_only_cache,
            r.cache_path@ == Seq::<char>::empty(),
    {
        ServerConfiguration { port: 0, memory_only_cache: false, cache_path: String::new() }
    }
}

/// Builds servers from a configuration.
pub struct ServerFactory {
    server_configuration: ServerConfiguration,
}

impl Default for ServerFactory {
    fn default() -> (r: Self)
        ensures
            r.configuration().port == 0,
            !r.configuration().memory_only_cache,
            r.configuration().cache_path@ == Seq::<char>::empty(),
    {
        ServerFactory { server_configuration: ServerConfiguration::default() }
    }
}

impl ServerFactory {
    /// The configuration that `build` hands on.
    pub closed spec fn configuration(&self) -> ServerConfiguration {
        self.server_configuration
    }

    /// The factory with its configuration replaced.
    pub fn with_configuration(self, server_configuration: ServerConfiguration) -> (r: Self)
        ensures
            r.configuration() == server_configuration,
    {
        let mut s = self;
        s.server_configuration = server_configuration;
        s
    }

    /// A server that runs with (a copy of) the factory's configuration.
    pub fn build(&self) -> (s: Server)
        ensures
            s.configuration() == self.configuration(),
    {
        let c = &self.server_configuration;
        Server {
            server_config: ServerConfiguration {
                port: c.port,
                memory_only_cache: c.memory_only_cache,
                cache_path: c.cache_path.clone(),
            },
        }
    }
}

/// A server, ready to be started.
pub struct Server {
    server_config: ServerConfiguration,
}

/// The address a server on `port` listens on: every interface, that port.
pub open spec fn listen_address_spec(port: i64) -> Seq<char> {
    "0.0.0.0:"@ + decimal(port as int)
}

impl Server {
    /// The configuration the server runs with.
    pub closed spec fn configuration(&self) -> ServerConfiguration {
        self.server_config
    }

    /// The configuration the server runs with.
    pub fn server_config(&self) -> (r: &ServerConfiguration)
        ensures
            *r == self.configuration(),
    {
        &self.server_config
    }

    /// The socket address the server listens on, in text.
    pub fn listen_address(&self) -> (r: String)
        ensures
            r@ == listen_address_spec(self.configuration().port),
    {
        let mut r = "0.0.0.0:".to_owned();
        push_decimal(&mut r, self.server_config.port);
        r
    }
}

/// The directory of the file-backed cache under the home directory `home`.
pub fn default_cache_path(home: &str) -> (r: String)
    ensures
        r@ == home@ + "/.cached"@,
{
    let mut r = home.to_owned();
    r.append("/.cached");
    r
}

} // verus!
