//! Configuration of the HTTP server that hosts an agent.

use vstd::prelude::*;

verus! {

/// Where the server listens and whether it allows cross-origin requests.
#[derive(Debug)]
pub struct ServerConfig {
    /// The host address to bind to.
    pub host: String,
    /// The port to listen on.
    pub port: u16,
    /// Whether CORS is enabled for all origins.
    pub enable_cors: bool,
}

impl Clone for ServerConfig {
    fn clone(&self) -> (r: Self)
        ensures
            r.host@ == self.host@,
            r.port == self.port,
            r.enable_cors == self.enable_cors,
    {
        ServerConfig { host: self.host.clone(), port: self.port, enable_cors: self.enable_cors }
    }
}

impl Default for ServerConfig {
    /// All interfaces, port 8080, CORS enabled.
    fn default() -> (r: Self)
        ensures
            r.host@ == "0.0.0.0"@,
            r.port == 8080,
            r.enable_cors,
    {
        ServerConfig { host: "0.0.0.0".to_owned(), port: 8080, enable_cors: true }
    }
}

impl ServerConfig {
    /// The default configuration.
    pub fn new() -> (r: Self)
        ensures
            r.host@ == "0.0.0.0"@,
            r.port == 8080,
            r.enable_cors,
    {
        Self::default()
    }

    /// Sets the host address.
    pub fn host(self, host: &str) -> (r: Self)
        ensures
            r.host@ == host@,
            r.port == self.port,
            r.enable_cors == self.enable_cors,
    {
        ServerConfig { host: host.to_owned(), ..self }
    }

    /// Sets the port.
    pub fn port(self, port: u16) -> (r: Self)
        ensures
            r.host == self.host,
            r.port == port,
            r.enable_cors == self.enable_cors,
    {
        ServerConfig { port, ..self }
    }

    /// Enables or disables CORS.
    pub fn cors(self, enabled: bool) -> (r: Self)
        ensures
            r.host == self.host,
            r.port == self.port,
            r.enable_cors == enabled,
    {
        ServerConfig { enable_cors: enabled, ..self }
    }

    /// The address to bind: `host:port`.
    pub fn bind_address(&self) -> (r: String)
        ensures
            r@ == self.host@ + ":"@ + crate::text::decimal(self.port as nat),
    {
        let p = crate::text::u64_to_decimal(self.port as u64);
        self.host.clone().concat(":").concat(p.as_str())
    }
}

} // verus!
