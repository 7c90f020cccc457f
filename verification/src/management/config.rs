//! Configuration of the management API server and its validation.
//!
//! The bind address is held in its canonical text form; durations are in
//! milliseconds.

use vstd::prelude::*;
use vstd::string::StringExecFns;
use crate::error::RaftError;

verus! {

/// Rate limiting settings.
#[derive(Debug, Clone, Copy, PartialEq, Eq, Structural)]
pub struct RateLimitConfig {
    /// Enable rate limiting
    pub enabled: bool,
    /// Requests allowed per minute per client
    pub requests_per_minute: u32,
    /// Connections allowed per IP address
    pub max_connections_per_ip: u32,
}

/// Security settings.
#[derive(Debug, Clone)]
pub struct SecurityConfig {
    /// Require authentication
    pub require_auth: bool,
    /// API key
    pub api_key: Option<String>,
    /// Enable TLS
    pub enable_tls: bool,
    /// Path of the TLS certificate
    pub tls_cert_path: Option<String>,
    /// Path of the TLS private key
    pub tls_key_path: Option<String>,
}

/// WebSocket settings.
#[derive(Debug, Clone, Copy, PartialEq, Eq, Structural)]
pub struct WebSocketConfig {
    /// Enable WebSocket connections
    pub enabled: bool,
    /// Maximum concurrent connections
    pub max_connections: u32,
    /// Maximum message size in bytes
    pub max_message_size: usize,
    /// Ping interval in milliseconds
    pub ping_interval_ms: u64,
    /// Connection timeout in milliseconds
    pub connection_timeout_ms: u64,
}

/// Configuration of the management API server.
#[derive(Debug, Clone)]
pub struct ManagementConfig {
    /// Address to serve on
    pub bind_address: String,
    /// Serve the API documentation UI
    pub enable_swagger_ui: bool,
    /// Allow cross-origin requests
    pub enable_cors: bool,
    /// Maximum request size in bytes
    pub max_request_size: usize,
    /// Request timeout in milliseconds
    pub request_timeout_ms: u64,
    /// Include details in error responses
    pub detailed_errors: bool,
    /// Rate limiting settings
    pub rate_limit: RateLimitConfig,
    /// Security settings
    pub security: SecurityConfig,
    /// WebSocket settings
    pub websocket: WebSocketConfig,
}

impl RateLimitConfig {
    /// The default rate limiting: off, 60 requests a minute, 10
    /// connections per IP.
    pub open spec fn default_spec() -> RateLimitConfig {
        RateLimitConfig { enabled: false, requests_per_minute: 60, max_connections_per_ip: 10 }
    }
}

impl WebSocketConfig {
    /// The default WebSocket settings: on, 100 connections, 64 KiB
    /// messages, 30 s pings, 60 s timeout.
    pub open spec fn default_spec() -> WebSocketConfig {
        WebSocketConfig {
            enabled: true,
            max_connections: 100,
            max_message_size: 65536,
            ping_interval_ms: 30_000,
            connection_timeout_ms: 60_000,
        }
    }
}

impl Default for RateLimitConfig {
    fn default() -> (r: Self)
        ensures
            r == RateLimitConfig::default_spec(),
    {
        RateLimitConfig { enabled: false, requests_per_minute: 60, max_connections_per_ip: 10 }
    }
}

impl Default for SecurityConfig {
    fn default() -> (r: Self)
        ensures
            !r.require_auth,
            r.api_key is None,
            !r.enable_tls,
            r.tls_cert_path is None,
            r.tls_key_path is None,
    {
        SecurityConfig { require_auth: false, api_key: None, enable_tls: false, tls_cert_path: None, tls_key_path: None }
    }
}

impl Default for WebSocketConfig {
    fn default() -> (r: Self)
        ensures
            r == WebSocketConfig::default_spec(),
    {
        WebSocketConfig {
            enabled: true,
            max_connections: 100,
            max_message_size: 64 * 1024,
            ping_interval_ms: 30_000,
            connection_timeout_ms: 60_000,
        }
    }
}

/// The configuration is the default one.
pub open spec fn is_default_management(c: ManagementConfig) -> bool {
    &&& c.bind_address@ == "127.0.0.1:8080"@
    &&& c.enable_swagger_ui
    &&& c.enable_cors
    &&& c.max_request_size == 1_048_576
    &&& c.request_timeout_ms == 30_000
    &&& c.detailed_errors
    &&& c.rate_limit == RateLimitConfig::default_spec()
    &&& !c.security.require_auth
    &&& c.security.api_key is None
    &&& !c.security.enable_tls
    &&& c.security.tls_cert_path is None
    &&& c.security.tls_key_path is None
    &&& c.websocket == WebSocketConfig::default_spec()
}

impl Default for ManagementConfig {
    fn default() -> (r: Self)
        ensures
            is_default_management(r),
    {
        ManagementConfig {
            bind_address: String::from_str("127.0.0.1:8080"),
            enable_swagger_ui: true,
            enable_cors: true,
            max_request_size: 1024 * 1024,
            request_timeout_ms: 30_000,
            detailed_errors: true,
            rate_limit: RateLimitConfig::default(),
            security: SecurityConfig::default(),
            websocket: WebSocketConfig::default(),
        }
    }
}

/// Why a management configuration is invalid, if it is: TLS without a
/// certificate or key path, rate limiting with no requests allowed, or
/// WebSockets with no connections allowed.
pub open spec fn management_issue(c: ManagementConfig) -> Option<Seq<char>> {
    if c.security.enable_tls && c.security.tls_cert_path is None {
        Some("TLS enabled but no certificate path provided"@)
    } else if c.security.enable_tls && c.security.tls_key_path is None {
        Some("TLS enabled but no private key path provided"@)
    } else if c.rate_limit.enabled && c.rate_limit.requests_per_minute == 0 {
        Some("Rate limiting enabled but requests_per_minute is 0"@)
    } else if c.websocket.enabled && c.websocket.max_connections == 0 {
        Some("WebSocket enabled but max_connections is 0"@)
    } else {
        None
    }
}

fn invalid_management(message: &str) -> (r: RaftError)
    ensures
        r matches RaftError::InvalidConfiguration { component, message: m }
            && component@ == "management"@ && m@ == message@,
{
    RaftError::InvalidConfiguration { component: String::from_str("management"), message: String::from_str(message) }
}

impl ManagementConfig {
    /// A builder starting from the defaults.
    pub fn builder() -> (r: ManagementConfigBuilder)
        ensures
            is_default_management(r.current()),
    {
        ManagementConfigBuilder::new()
    }

    /// Check the configuration, reporting the first problem.
    pub fn validate(&self) -> (r: Result<(), RaftError>)
        ensures
            match management_issue(*self) {
                None => r is Ok,
                Some(m) => r matches Err(RaftError::InvalidConfiguration { component, message })
                    && component@ == "management"@ && message@ == m,
            },
    {
        if self.security.enable_tls {
            if self.security.tls_cert_path.is_none() {
                return Err(invalid_management("TLS enabled but no certificate path provided"));
            }
            if self.security.tls_key_path.is_none() {
                return Err(invalid_management("TLS enabled but no private key path provided"));
            }
        }
        if self.rate_limit.enabled && self.rate_limit.requests_per_minute == 0 {
            return Err(invalid_management("Rate limiting enabled but requests_per_minute is 0"));
        }
        if self.websocket.enabled && self.websocket.max_connections == 0 {
            return Err(invalid_management("WebSocket enabled but max_connections is 0"));
        }
        Ok(())
    }
}

/// The default configuration is valid.
pub proof fn lemma_default_valid(c: ManagementConfig)
    requires
        is_default_management(c),
    ensures
        management_issue(c) is None,
{
}

/// Builder of management configurations.
#[derive(Debug)]
pub struct ManagementConfigBuilder {
    config: ManagementConfig,
}

impl ManagementConfigBuilder {
    /// The configuration built so far.
    pub closed spec fn current(self) -> ManagementConfig {
        self.config
    }

    /// A builder starting from the defaults.
    pub fn new() -> (r: Self)
        ensures
            is_default_management(r.current()),
    {
        ManagementConfigBuilder { config: ManagementConfig::default() }
    }

    /// Set the address to serve on.
    pub fn bind_address(self, addr: String) -> (r: Self)
        ensures
            r.current() == (ManagementConfig { bind_address: addr, ..self.current() }),
    {
        let mut b = self;
        b.config.bind_address = addr;
        b
    }

    /// Serve the documentation UI or not.
    pub fn enable_swagger_ui(self, enable: bool) -> (r: Self)
        ensures
            r.current() == (ManagementConfig { enable_swagger_ui: enable, ..self.current() }),
    {
        let mut b = self;
        b.config.enable_swagger_ui = enable;
        b
    }

    /// Allow cross-origin requests or not.
    pub fn enable_cors(self, enable: bool) -> (r: Self)
        ensures
            r.current() == (ManagementConfig { enable_cors: enable, ..self.current() }),
    {
        let mut b = self;
        b.config.enable_cors = enable;
        b
    }

    /// Set the maximum request size.
    pub fn max_request_size(self, size: usize) -> (r: Self)
        ensures
            r.current() == (ManagementConfig { max_request_size: size, ..self.current() }),
    {
        let mut b = self;
        b.config.max_request_size = size;
        b
    }

    /// Set the request timeout.
    pub fn request_timeout(self, timeout_ms: u64) -> (r: Self)
        ensures
            r.current() == (ManagementConfig { request_timeout_ms: timeout_ms, ..self.current() }),
    {
        let mut b = self;
        b.config.request_timeout_ms = timeout_ms;
        b
    }

    /// Include details in errors or not.
    pub fn detailed_errors(self, enable: bool) -> (r: Self)
        ensures
            r.current() == (ManagementConfig { detailed_errors: enable, ..self.current() }),
    {
        let mut b = self;
        b.config.detailed_errors = enable;
        b
    }

    /// Set the rate limiting settings.
    pub fn rate_limit(self, config: RateLimitConfig) -> (r: Self)
        ensures
            r.current() == (ManagementConfig { rate_limit: config, ..self.current() }),
    {
        let mut b = self;
        b.config.rate_limit = config;
        b
    }

    /// Set the security settings.
    pub fn security(self, config: SecurityConfig) -> (r: Self)
        ensures
            r.current() == (ManagementConfig { security: config, ..self.current() }),
    {
        let mut b = self;
        b.config.security = config;
        b
    }

    /// Set the WebSocket settings.
    pub fn websocket(self, config: WebSocketConfig) -> (r: Self)
        ensures
            r.current() == (ManagementConfig { websocket: config, ..self.current() }),
    {
        let mut b = self;
        b.config.websocket = config;
        b
    }

    /// Turn rate limiting on.
    pub fn enable_rate_limiting(self) -> (r: Self)
        ensures
            r.current() == (ManagementConfig { rate_limit: RateLimitConfig { enabled: true, ..self.current().rate_limit }, ..self.current() }),
    {
        let mut b = self;
        b.config.rate_limit.enabled = true;
        b
    }

    /// Require this API key.
    pub fn api_key(self, key: String) -> (r: Self)
        ensures
            r.current() == (ManagementConfig { security: SecurityConfig { api_key: Some(key), require_auth: true, ..self.current().security }, ..self.current() }),
    {
        let mut b = self;
        b.config.security.api_key = Some(key);
        b.config.security.require_auth = true;
        b
    }

    /// Serve over TLS with this certificate and key.
    pub fn enable_tls(self, cert_path: String, key_path: String) -> (r: Self)
        ensures
            r.current() == (ManagementConfig { security: SecurityConfig {
                enable_tls: true, tls_cert_path: Some(cert_path), tls_key_path: Some(key_path), ..self.current().security }, ..self.current() }),
    {
        let mut b = self;
        b.config.security.enable_tls = true;
        b.config.security.tls_cert_path = Some(cert_path);
        b.config.security.tls_key_path = Some(key_path);
        b
    }

    /// The configuration.
    pub fn build(self) -> (r: ManagementConfig)
        ensures
            r == self.current(),
    {
        self.config
    }
}

impl Default for ManagementConfigBuilder {
    fn default() -> (r: Self)
        ensures
            is_default_management(r.current()),
    {
        ManagementConfigBuilder::new()
    }
}

} // verus!
