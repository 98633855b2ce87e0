//! Authorization bridge for a reverse proxy's auth-subrequest mechanism.
//!
//! The proxy terminates mutual TLS, verifies the certificate chain, and
//! forwards its verdict and the raw client certificate as two headers.
//! This library turns that evidence into an authorize/deny decision and,
//! on success, surfaces the caller's attested application identity.

pub mod config;
pub mod engine;
pub mod extract;
pub mod hex_enc;
pub mod laws;
