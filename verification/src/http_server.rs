//! The HTTP server that will carry plugin-provided routes: its
//! configuration and the address it listens on.
//!
//! Serving requests stands outside this library.
use vstd::prelude::*;
use crate::text::{decimal_digits, owned, u64_to_decimal};

verus! {

/// HTTP server configuration.
pub struct HttpServerConfig {
    /// Port to listen on.
    pub port: u16,
    /// Host to bind to.
    pub host: String,
}

impl Default for HttpServerConfig {
    /// Port 8080 on the loopback address.
    fn default() -> (r: Self)
        ensures
            r.port == 8080,
            r.host@ == "127.0.0.1"@,
    {
        HttpServerConfig { port: 8080, host: owned("127.0.0.1") }
    }
}

/// The HTTP server.
pub struct HttpServer {
    config: HttpServerConfig,
}

impl HttpServer {
    /// The port the server listens on.
    pub closed spec fn port(self) -> u16 {
        self.config.port
    }

    /// The host the server binds to.
    pub closed spec fn host(self) -> Seq<char> {
        self.config.host@
    }

    /// A server with the given configuration.
    pub fn new(config: HttpServerConfig) -> (r: Self)
        ensures
            r.port() == config.port,
            r.host() == config.host@,
    {
        HttpServer { config }
    }

    /// The address the server listens on: `host:port`.
    pub fn address(&self) -> (r: String)
        ensures
            r@ == self.host() + ":"@ + decimal_digits(self.port() as nat),
    {
        let mut r = self.config.host.clone();
        r.append(":");
        let p = u64_to_decimal(self.config.port as u64);
        r.append(p.as_str());
        r
    }
}

} // verus!
