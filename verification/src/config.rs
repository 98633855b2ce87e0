//! Service configuration: plain sections and an explicit layered merge.
//!
//! A configuration file may provide any of the named sections; a provided
//! section overrides the built-in default for that section whole, and an
//! absent one leaves the default standing.

use vstd::prelude::*;

verus! {

/// Where the auth service listens.
#[derive(Clone, Debug)]
pub struct AuthConfig {
    pub address: String,
    pub port: u16,
}

/// Where the client-side listener binds.
#[derive(Clone, Debug)]
pub struct ClientConfig {
    pub address: String,
    pub port: u16,
}

/// Agent settings: the gateway domain requests are routed under.
#[derive(Clone, Debug)]
pub struct AgentConfig {
    pub gateway_domain: String,
}

/// Paths of the TLS material the outbound side presents.
#[derive(Clone, Debug)]
pub struct TlsConfig {
    pub cert_file: String,
    pub key_file: String,
    pub ca_file: String,
}

/// Target information extracted from headers.
#[derive(Clone, Debug)]
pub struct TargetInfo {
    pub app_id: String,
    pub instance_id: String,
    pub port: u16,
}

/// The whole service configuration, one field per named section.
#[derive(Clone, Debug)]
pub struct Config {
    pub auth: AuthConfig,
    pub client: ClientConfig,
    pub agent: AgentConfig,
    pub tls: TlsConfig,
}

/// The sections a configuration file provided, each optional.
pub struct ConfigOverlay {
    pub auth: Option<AuthConfig>,
    pub client: Option<ClientConfig>,
    pub agent: Option<AgentConfig>,
    pub tls: Option<TlsConfig>,
}

/// Merge file-provided sections over built-in defaults: a provided section
/// replaces the default whole, section by section.
pub fn resolve_config(defaults: Config, overlay: ConfigOverlay) -> (r: Config)
    ensures
        r.auth == (match overlay.auth {
            Some(a) => a,
            None => defaults.auth,
        }),
        r.client == (match overlay.client {
            Some(c) => c,
            None => defaults.client,
        }),
        r.agent == (match overlay.agent {
            Some(a) => a,
            None => defaults.agent,
        }),
        r.tls == (match overlay.tls {
            Some(t) => t,
            None => defaults.tls,
        }),
{
    Config {
        auth: match overlay.auth {
            Some(a) => a,
            None => defaults.auth,
        },
        client: match overlay.client {
            Some(c) => c,
            None => defaults.client,
        },
        agent: match overlay.agent {
            Some(a) => a,
            None => defaults.agent,
        },
        tls: match overlay.tls {
            Some(t) => t,
            None => defaults.tls,
        },
    }
}

} // verus!
