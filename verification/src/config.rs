//! The service's configuration: server address, database, queue, keys and the
//! optional telemetry export.
use crate::common::text::{concat3, decimal, decimal_text};
use vstd::prelude::*;

verus! {

/// The whole configuration.
#[derive(Clone)]
pub struct Config {
    pub server: ServerConfig,
    pub database: DatabaseConfig,
    pub redis: RedisConfig,
    pub crypto: CryptoConfig,
    pub otel: OtelConfig,
}

/// Optional OpenTelemetry export; disabled when no exporter endpoint is set.
#[derive(Clone)]
pub struct OtelConfig {
    pub exporter_otlp_endpoint: Option<String>,
    pub service_name: Option<String>,
}

impl Default for OtelConfig {
    fn default() -> (r: Self)
        ensures
            r.exporter_otlp_endpoint is None,
            r.service_name is None,
    {
        OtelConfig { exporter_otlp_endpoint: None, service_name: None }
    }
}

/// The keys: the tenant master key and the view-later key of API keys, each
/// 32 bytes in standard base64.
#[derive(Clone)]
pub struct CryptoConfig {
    pub master_key: String,
    pub api_key_encryption_key: String,
}

/// Where the server listens.
#[derive(Clone)]
pub struct ServerConfig {
    pub host: String,
    pub port: u16,
}

#[derive(Clone)]
pub struct DatabaseConfig {
    pub url: String,
}

#[derive(Clone)]
pub struct RedisConfig {
    pub url: String,
}

impl ServerConfig {
    /// The listening address as `host:port`, the text a socket address is parsed from.
    pub fn addr_text(&self) -> (r: String)
        ensures
            r@ == self.host@ + ":"@ + decimal(self.port as nat),
    {
        let port = decimal_text(self.port as u64);
        concat3(self.host.as_str(), ":", port.as_str())
    }
}

} // verus!
