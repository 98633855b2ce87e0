//! The certificate identity extractor.
//!
//! The proxy forwards the client certificate percent-encoded, wrapped in a
//! PEM block, holding a DER-encoded X.509 structure. An attestation-based
//! certificate authority embeds the application identity as a custom
//! extension; this module decodes the layers, locates that extension, and
//! returns its value as lowercase hex. Every step is total: each failure
//! maps to its own [`ErrorKind`] and nothing panics on malformed input.

use vstd::prelude::*;
use crate::engine::ErrorKind;
use crate::hex_enc::{hex_encode, spec_hex_encode};

verus! {

/// What `urlencoding::decode` yields on a given input: the percent-decoded
/// bytes, or nothing when those bytes are not valid UTF-8.
pub uninterp spec fn url_decoded(s: Seq<char>) -> Option<Seq<u8>>;

/// What `x509_parser::pem::parse_x509_pem` yields on a given input: the
/// base64-decoded payload of the first PEM block, or nothing when no
/// well-formed block is present.
pub uninterp spec fn pem_payload(bytes: Seq<u8>) -> Option<Seq<u8>>;

/// Whether `x509_parser::parse_x509_certificate` accepts the bytes as a
/// DER-encoded X.509 certificate.
pub uninterp spec fn x509_accepted(der: Seq<u8>) -> bool;

/// The value of the unique extension carrying the given DER-encoded object
/// identifier in the certificate parsed from `der`; nothing when the
/// extension is absent or appears more than once.
pub uninterp spec fn x509_extension_value(der: Seq<u8>, oid: Seq<u8>) -> Option<Seq<u8>>;

/// Relies on `urlencoding::decode`: it replaces each well-formed `%XX`
/// triple by its byte, leaves malformed triples as they stand, and fails
/// exactly when the resulting bytes are not valid UTF-8.
#[verifier::external_body]
fn url_decode(s: &str) -> (r: Option<Vec<u8>>)
    ensures
        r is Some <==> url_decoded(s@) is Some,
        r matches Some(v) ==> v@ == url_decoded(s@).unwrap(),
{
    match urlencoding::decode(s) {
        Ok(cow) => Some(cow.into_owned().into_bytes()),
        Err(_) => None,
    }
}

/// Relies on `x509_parser::pem::parse_x509_pem`: it reads the first PEM
/// block and returns its base64-decoded contents, failing when the framing
/// or the base64 payload is malformed.
#[verifier::external_body]
fn pem_decode(bytes: &[u8]) -> (r: Option<Vec<u8>>)
    ensures
        r is Some <==> pem_payload(bytes@) is Some,
        r matches Some(v) ==> v@ == pem_payload(bytes@).unwrap(),
{
    match x509_parser::pem::parse_x509_pem(bytes) {
        Ok((_, pem)) => Some(pem.contents),
        Err(_) => None,
    }
}

/// What looking one extension up in a DER-encoded certificate can yield.
enum ExtensionLookup {
    /// The bytes are not a DER-encoded X.509 certificate.
    BadDer,
    /// The certificate parsed, but holds no unique extension under the
    /// requested identifier.
    Absent,
    /// The value of the extension.
    Found(Vec<u8>),
}

/// Relies on `x509_parser::parse_x509_certificate` to parse the DER bytes
/// and on `X509Certificate::get_extension_unique` to look the extension up
/// by its identifier (built with `Oid::new` from the DER-encoded form,
/// which never fails). The certificate value borrows the input and cannot
/// leave this function, so the parse and the lookup stand together here.
#[verifier::external_body]
fn x509_lookup_extension(der: &[u8], oid_der: &[u8]) -> (r: ExtensionLookup)
    ensures
        r is BadDer <==> !x509_accepted(der@),
        x509_accepted(der@) ==> (r is Absent <==> x509_extension_value(der@, oid_der@) is None),
        r matches ExtensionLookup::Found(v) ==> v@ == x509_extension_value(der@, oid_der@).unwrap(),
{
    let oid = x509_parser::asn1_rs::Oid::new(std::borrow::Cow::Borrowed(oid_der));
    match x509_parser::parse_x509_certificate(der) {
        Err(_) => ExtensionLookup::BadDer,
        Ok((_, cert)) => match cert.get_extension_unique(&oid) {
            Ok(Some(ext)) => ExtensionLookup::Found(ext.value.to_vec()),
            Ok(None) => ExtensionLookup::Absent,
            Err(_) => ExtensionLookup::Absent,
        },
    }
}

/// DER encoding of the object identifier under which the attestation-based
/// certificate authority stores the application identity
/// (1.3.6.1.4.1.62397.1.3).
pub open spec fn app_id_oid() -> Seq<u8> {
    seq![0x2bu8, 0x06u8, 0x01u8, 0x04u8, 0x01u8, 0x83u8, 0xe7u8, 0x3du8, 0x01u8, 0x03u8]
}

/// The identity-extension identifier in its DER-encoded form.
pub fn app_id_oid_bytes() -> (r: Vec<u8>)
    ensures
        r@ =~= app_id_oid(),
{
    let mut v: Vec<u8> = Vec::new();
    v.push(0x2b);
    v.push(0x06);
    v.push(0x01);
    v.push(0x04);
    v.push(0x01);
    v.push(0x83);
    v.push(0xe7);
    v.push(0x3d);
    v.push(0x01);
    v.push(0x03);
    proof {
        assert(v@ =~= app_id_oid());
    }
    v
}

/// What the extraction pipeline decides on a certificate header value:
/// the first failing layer names the error, and success carries the
/// lowercase hex encoding of the extension's bytes.
pub open spec fn spec_extract(cert: Seq<char>, oid: Seq<u8>) -> Result<Seq<char>, ErrorKind> {
    match url_decoded(cert) {
        None => Err(ErrorKind::UrlDecodeError),
        Some(bytes) => match pem_payload(bytes) {
            None => Err(ErrorKind::PemParseError),
            Some(der) => if !x509_accepted(der) {
                Err(ErrorKind::X509ParseError)
            } else {
                match x509_extension_value(der, oid) {
                    None => Err(ErrorKind::MissingAppIdExtension),
                    Some(id) => Ok(spec_hex_encode(id)),
                }
            },
        },
    }
}

/// Percent-decode the header value, unwrap the PEM block, parse the DER
/// certificate, locate the identity extension, and return its value in
/// lowercase hex. Fails closed: the first layer that rejects its input
/// names the error.
pub fn parse_and_verify_cert(cert_pem: &str) -> (r: Result<String, ErrorKind>)
    ensures
        r matches Ok(s) ==> spec_extract(cert_pem@, app_id_oid()) matches Ok(t) && s@ == t,
        r matches Err(e) ==> spec_extract(cert_pem@, app_id_oid()) matches Err(f) && e == f,
{
    let decoded = match url_decode(cert_pem) {
        Some(d) => d,
        None => {
            return Err(ErrorKind::UrlDecodeError);
        },
    };
    let der = match pem_decode(decoded.as_slice()) {
        Some(d) => d,
        None => {
            return Err(ErrorKind::PemParseError);
        },
    };
    let oid = app_id_oid_bytes();
    match x509_lookup_extension(der.as_slice(), oid.as_slice()) {
        ExtensionLookup::BadDer => Err(ErrorKind::X509ParseError),
        ExtensionLookup::Absent => Err(ErrorKind::MissingAppIdExtension),
        ExtensionLookup::Found(id) => Ok(hex_encode(id.as_slice())),
    }
}

} // verus!
