//! Decisions of the management server that do not depend on the network:
//! the configuration summary it reports and whether a request may pass the
//! authentication check.

use vstd::prelude::*;
use vstd::string::StringExecFns;
use crate::management::config::ManagementConfig;
use crate::text::{str_eq, strip_prefix_str, without_prefix};

verus! {

/// Summary of the server configuration reported by the server information
/// endpoint.
#[derive(Debug, Clone)]
pub struct ServerConfigSummary {
    /// Bind address
    pub bind_address: String,
    /// Swagger UI enabled
    pub swagger_ui_enabled: bool,
    /// CORS enabled
    pub cors_enabled: bool,
    /// WebSocket enabled
    pub websocket_enabled: bool,
    /// Authentication required
    pub auth_required: bool,
}

/// The configuration summary the server information endpoint reports: an
/// unknown bind address, Swagger UI, CORS and WebSocket on, no
/// authentication.
pub fn server_config_summary() -> (r: ServerConfigSummary)
    ensures
        r.bind_address@ == "unknown"@,
        r.swagger_ui_enabled,
        r.cors_enabled,
        r.websocket_enabled,
        !r.auth_required,
{
    ServerConfigSummary {
        bind_address: String::from_str("unknown"),
        swagger_ui_enabled: true,
        cors_enabled: true,
        websocket_enabled: true,
        auth_required: false,
    }
}

/// Whether a request passes the authentication check: always when
/// authentication is not required; for the health and readiness paths;
/// otherwise only with an API key configured and an `authorization` header
/// of the form `Bearer <key>` holding exactly that key.
pub open spec fn auth_allows_spec(
    require_auth: bool,
    api_key: Option<Seq<char>>,
    path: Seq<char>,
    authorization: Option<Seq<char>>,
) -> bool {
    if !require_auth {
        true
    } else if path == "/v1/health"@ || path == "/v1/ready"@ {
        true
    } else {
        match (api_key, authorization) {
            (Some(key), Some(header)) => without_prefix(header, "Bearer "@) == Some(key),
            _ => false,
        }
    }
}

/// The configured API key, as characters.
pub open spec fn configured_key(config: ManagementConfig) -> Option<Seq<char>> {
    match config.security.api_key {
        Some(k) => Some(k@),
        None => None,
    }
}

/// The header value, as characters.
pub open spec fn header_chars(h: Option<&str>) -> Option<Seq<char>> {
    match h {
        Some(v) => Some(v@),
        None => None,
    }
}

/// Whether a request for `path`, with the `authorization` header value when
/// it is readable text, passes the authentication check of `config`.
pub fn auth_allows(config: &ManagementConfig, path: &str, authorization: Option<&str>) -> (r: bool)
    ensures
        r == auth_allows_spec(config.security.require_auth, configured_key(*config), path@, header_chars(authorization)),
{
    if !config.security.require_auth {
        return true;
    }
    if str_eq(path, "/v1/health") || str_eq(path, "/v1/ready") {
        return true;
    }
    match (&config.security.api_key, authorization) {
        (Some(key), Some(header)) => {
            match strip_prefix_str(header, "Bearer ") {
                Some(rest) => str_eq(rest.as_str(), key.as_str()),
                None => false,
            }
        },
        _ => false,
    }
}

} // verus!
