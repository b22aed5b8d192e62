//! Server-level configuration: where the buckets directory lives and where
//! the server listens.  Loading the configuration file is boundary work;
//! the defaults and their application are specified here.

use vstd::prelude::*;

verus! {

/// The listener address and the buckets directory location.
pub struct ServerConfig {
    pub host: String,
    pub port: u16,
    pub buckets_dir: String,
}

/// The address the server binds when the configuration names none.
pub fn default_host() -> (r: String)
    ensures
        r@ == "0.0.0.0"@,
{
    "0.0.0.0".to_owned()
}

/// The port the server binds when the configuration names none.
pub fn default_port() -> (r: u16)
    ensures
        r == 8080,
{
    8080
}

/// The buckets directory used when the configuration names none.
pub fn default_buckets_dir() -> (r: String)
    ensures
        r@ == "./buckets"@,
{
    "./buckets".to_owned()
}

impl Default for ServerConfig {
    /// The configuration used when no configuration file exists.
    fn default() -> (r: ServerConfig)
        ensures
            r.host@ == "0.0.0.0"@,
            r.port == 8080,
            r.buckets_dir@ == "./buckets"@,
    {
        ServerConfig { host: default_host(), port: default_port(), buckets_dir: default_buckets_dir() }
    }
}

/// The whole application configuration.
pub struct AppConfig {
    pub server: ServerConfig,
}

} // verus!
