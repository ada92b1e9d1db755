//! Configuration of the standalone exposition server: where it binds and
//! which paths serve metrics, health and readiness.

use vstd::prelude::*;

verus! {

/// Where the standalone server binds and the paths it serves.
#[derive(Debug, Clone)]
pub struct ServerConfig {
    /// The port to bind to (default 9090).
    pub port: u16,
    /// The host to bind to (default "0.0.0.0").
    pub host: String,
    /// Path of the metrics endpoint (default "/metrics").
    pub metrics_path: String,
    /// Path of the health endpoint (default "/health").
    pub health_path: String,
    /// Path of the readiness endpoint (default "/ready").
    pub ready_path: String,
}

/// `c` holds the default configuration.
pub open spec fn is_default_config(c: ServerConfig) -> bool {
    &&& c.port == 9090
    &&& c.host@ == "0.0.0.0"@
    &&& c.metrics_path@ == "/metrics"@
    &&& c.health_path@ == "/health"@
    &&& c.ready_path@ == "/ready"@
}

/// `a` and `b` agree on every field.
pub open spec fn same_config(a: ServerConfig, b: ServerConfig) -> bool {
    &&& a.port == b.port
    &&& a.host@ == b.host@
    &&& a.metrics_path@ == b.metrics_path@
    &&& a.health_path@ == b.health_path@
    &&& a.ready_path@ == b.ready_path@
}

impl Default for ServerConfig {
    fn default() -> (r: Self)
        ensures
            is_default_config(r),
    {
        ServerConfig {
            port: 9090,
            host: "0.0.0.0".to_owned(),
            metrics_path: "/metrics".to_owned(),
            health_path: "/health".to_owned(),
            ready_path: "/ready".to_owned(),
        }
    }
}

/// Builder for a standalone server.
pub struct StandaloneServerBuilder {
    config: ServerConfig,
}

impl StandaloneServerBuilder {
    /// The configuration built so far.
    pub closed spec fn spec_config(&self) -> ServerConfig {
        self.config
    }

    /// A builder holding the default configuration.
    pub fn new() -> (r: Self)
        ensures
            is_default_config(r.spec_config()),
    {
        StandaloneServerBuilder { config: ServerConfig::default() }
    }

    /// Set the port to bind to.
    pub fn port(self, port: u16) -> (r: Self)
        ensures
            same_config(r.spec_config(), ServerConfig { port, ..self.spec_config() }),
    {
        let mut b = self;
        b.config.port = port;
        b
    }

    /// Set the host to bind to.
    pub fn host(self, host: &str) -> (r: Self)
        ensures
            r.spec_config().host@ == host@,
            same_config(r.spec_config(), ServerConfig { host: r.spec_config().host, ..self.spec_config() }),
    {
        let mut b = self;
        b.config.host = host.to_owned();
        b
    }

    /// Set the metrics endpoint path.
    pub fn metrics_path(self, path: &str) -> (r: Self)
        ensures
            r.spec_config().metrics_path@ == path@,
            same_config(
                r.spec_config(),
                ServerConfig { metrics_path: r.spec_config().metrics_path, ..self.spec_config() },
            ),
    {
        let mut b = self;
        b.config.metrics_path = path.to_owned();
        b
    }

    /// Set the health endpoint path.
    pub fn health_path(self, path: &str) -> (r: Self)
        ensures
            r.spec_config().health_path@ == path@,
            same_config(
                r.spec_config(),
                ServerConfig { health_path: r.spec_config().health_path, ..self.spec_config() },
            ),
    {
        let mut b = self;
        b.config.health_path = path.to_owned();
        b
    }

    /// Set the readiness endpoint path.
    pub fn ready_path(self, path: &str) -> (r: Self)
        ensures
            r.spec_config().ready_path@ == path@,
            same_config(
                r.spec_config(),
                ServerConfig { ready_path: r.spec_config().ready_path, ..self.spec_config() },
            ),
    {
        let mut b = self;
        b.config.ready_path = path.to_owned();
        b
    }

    /// Build the server with the configuration gathered so far.
    pub fn build(self) -> (r: StandaloneServer)
        ensures
            r.spec_config() == self.spec_config(),
    {
        StandaloneServer { config: self.config }
    }
}

impl Default for StandaloneServerBuilder {
    fn default() -> (r: Self)
        ensures
            is_default_config(r.spec_config()),
    {
        Self::new()
    }
}

/// A standalone server for exposing metrics.
pub struct StandaloneServer {
    config: ServerConfig,
}

impl StandaloneServer {
    /// The server's configuration.
    pub closed spec fn spec_config(&self) -> ServerConfig {
        self.config
    }

    /// A builder holding the default configuration.
    pub fn builder() -> (r: StandaloneServerBuilder)
        ensures
            is_default_config(r.spec_config()),
    {
        StandaloneServerBuilder::new()
    }

    /// The server's configuration.
    pub fn config(&self) -> (r: &ServerConfig)
        ensures
            *r == self.spec_config(),
    {
        &self.config
    }
}

/// Server error types.
#[derive(Debug)]
pub enum ServerError {
    /// The address could not be bound.
    BindError(String),
    /// Serving failed.
    ServeError(String),
}

} // verus!
