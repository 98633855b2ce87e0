// Unit tests for the hex encoder, the identity-extension identifier, the
// response encoder, and the configuration merge.

use mesh_auth::config::{
    AgentConfig, AuthConfig, ClientConfig, Config, ConfigOverlay, TlsConfig, resolve_config,
};
use mesh_auth::engine::{encode_response, AuthHeaders, AuthOutcome, ErrorKind, AUTH_ID_HEADER};
use mesh_auth::extract::app_id_oid_bytes;
use mesh_auth::hex_enc::hex_encode;

#[test]
fn hex_encode_empty() {
    assert_eq!(hex_encode(&[]), "");
}

#[test]
fn hex_encode_known_bytes() {
    assert_eq!(hex_encode(&[0x00, 0x0f, 0xa5, 0xff]), "000fa5ff");
}

#[test]
fn hex_encode_matches_reference_encoder() {
    let data: Vec<u8> = (0u16..=255).map(|b| b as u8).collect();
    assert_eq!(hex_encode(&data), hex::encode(&data));
}

#[test]
fn identity_oid_der_matches_components() {
    let oid: x509_parser::asn1_rs::Oid = "1.3.6.1.4.1.62397.1.3".parse().unwrap();
    assert_eq!(oid.as_bytes(), app_id_oid_bytes().as_slice());
}

#[test]
fn auth_headers_copies_values() {
    let h = AuthHeaders::new(Some("a".to_string()), Some("b".to_string()));
    assert_eq!(h.client_cert.as_deref(), Some("a"));
    assert_eq!(h.client_verify.as_deref(), Some("b"));
    let empty = AuthHeaders::new(None, None);
    assert!(empty.client_cert.is_none());
    assert!(empty.client_verify.is_none());
}

#[test]
fn response_header_name_is_fixed() {
    assert_eq!(AUTH_ID_HEADER, "x-dstack-app-id");
}

#[test]
fn encode_response_success_carries_identity() {
    let (status, header) = encode_response(AuthOutcome::Authorized {
        app_id: "00aa".to_string(),
    });
    assert_eq!(status, 200);
    assert_eq!(header.as_deref(), Some("00aa"));
}

#[test]
fn encode_response_denial_hides_reason() {
    let (status, header) = encode_response(AuthOutcome::Denied {
        reason: ErrorKind::X509ParseError,
    });
    assert_eq!(status, 401);
    assert_eq!(header, None);
}

fn sample_defaults() -> Config {
    Config {
        auth: AuthConfig { address: "127.0.0.1".to_string(), port: 8000 },
        client: ClientConfig { address: "127.0.0.1".to_string(), port: 8010 },
        agent: AgentConfig { gateway_domain: "example.test".to_string() },
        tls: TlsConfig {
            cert_file: "cert.pem".to_string(),
            key_file: "key.pem".to_string(),
            ca_file: "ca.pem".to_string(),
        },
    }
}

#[test]
fn file_sections_override_defaults() {
    let merged = resolve_config(sample_defaults(), ConfigOverlay {
        auth: Some(AuthConfig { address: "0.0.0.0".to_string(), port: 9000 }),
        client: None,
        agent: Some(AgentConfig { gateway_domain: "gateway.test".to_string() }),
        tls: None,
    });
    assert_eq!(merged.auth.address, "0.0.0.0");
    assert_eq!(merged.auth.port, 9000);
    assert_eq!(merged.agent.gateway_domain, "gateway.test");
    assert_eq!(merged.client.port, 8010);
    assert_eq!(merged.tls.ca_file, "ca.pem");
}

#[test]
fn absent_sections_keep_defaults() {
    let merged = resolve_config(sample_defaults(), ConfigOverlay {
        auth: None,
        client: None,
        agent: None,
        tls: None,
    });
    assert_eq!(merged.auth.address, "127.0.0.1");
    assert_eq!(merged.auth.port, 8000);
    assert_eq!(merged.client.address, "127.0.0.1");
    assert_eq!(merged.agent.gateway_domain, "example.test");
    assert_eq!(merged.tls.cert_file, "cert.pem");
    assert_eq!(merged.tls.key_file, "key.pem");
}
