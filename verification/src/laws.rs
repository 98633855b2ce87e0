//! The security laws of the decision path, stated and proved once over the
//! decision model that the executable functions are specified against.

use vstd::prelude::*;
use crate::engine::{spec_decide, spec_status, ErrorKind};
use crate::extract::{
    pem_payload, spec_extract, url_decoded, x509_accepted, x509_extension_value,
};
use crate::hex_enc::spec_hex_encode;

verus! {

/// A failed or missing verification verdict denies with status 401,
/// whatever the certificate header holds — even a well-formed certificate
/// carrying an identity. The certificate is never consulted before the
/// verdict passes.
pub proof fn verify_outcome_precedes_certificate(
    cert: Option<Seq<char>>,
    verify: Option<Seq<char>>,
    oid: Seq<u8>,
)
    requires
        verify is None || verify.unwrap() != "SUCCESS"@,
    ensures
        spec_decide(cert, verify, oid) is Err,
        verify is None ==> spec_decide(cert, verify, oid) == Err::<Seq<char>, ErrorKind>(
            ErrorKind::MissingVerifyHeader,
        ),
        verify is Some ==> spec_decide(cert, verify, oid) == Err::<Seq<char>, ErrorKind>(
            ErrorKind::VerifyNotSuccess,
        ),
        spec_status(spec_decide(cert, verify, oid)) == 401,
{
}

/// With a passing verdict and a certificate whose layers all decode and
/// whose identity extension holds bytes `id`, the response is 200 and the
/// surfaced identity is exactly the lowercase hex encoding of `id`. The
/// decision is a function of the two header values alone, so repeated
/// identical requests decide identically.
pub proof fn happy_path_yields_hex_identity(cert: Seq<char>, oid: Seq<u8>, id: Seq<u8>)
    requires
        url_decoded(cert) is Some,
        pem_payload(url_decoded(cert).unwrap()) is Some,
        x509_accepted(pem_payload(url_decoded(cert).unwrap()).unwrap()),
        x509_extension_value(pem_payload(url_decoded(cert).unwrap()).unwrap(), oid) == Some(id),
    ensures
        spec_decide(Some(cert), Some("SUCCESS"@), oid) == Ok::<Seq<char>, ErrorKind>(
            spec_hex_encode(id),
        ),
        spec_status(spec_decide(Some(cert), Some("SUCCESS"@), oid)) == 200,
{
}

/// A certificate that decodes and parses but lacks the identity extension
/// denies with status 401: identity extraction is mandatory, not optional.
pub proof fn missing_identity_denies(cert: Seq<char>, oid: Seq<u8>)
    requires
        url_decoded(cert) is Some,
        pem_payload(url_decoded(cert).unwrap()) is Some,
        x509_accepted(pem_payload(url_decoded(cert).unwrap()).unwrap()),
        x509_extension_value(pem_payload(url_decoded(cert).unwrap()).unwrap(), oid) is None,
    ensures
        spec_decide(Some(cert), Some("SUCCESS"@), oid) == Err::<Seq<char>, ErrorKind>(
            ErrorKind::MissingAppIdExtension,
        ),
        spec_status(spec_decide(Some(cert), Some("SUCCESS"@), oid)) == 401,
{
}

/// A certificate header that fails any decoding layer — malformed
/// percent-encoding, no PEM block, or a PEM payload that is not a DER
/// certificate — denies with status 401, whichever layer rejected it.
pub proof fn malformed_certificate_denies(cert: Seq<char>, oid: Seq<u8>)
    requires
        url_decoded(cert) is None || pem_payload(url_decoded(cert).unwrap()) is None
            || !x509_accepted(pem_payload(url_decoded(cert).unwrap()).unwrap()),
    ensures
        spec_decide(Some(cert), Some("SUCCESS"@), oid) is Err,
        spec_status(spec_decide(Some(cert), Some("SUCCESS"@), oid)) == 401,
{
}

/// A passing verdict with no certificate forwarded denies with the
/// certificate-presence reason, distinct from every decoding failure.
pub proof fn missing_certificate_denies(verify: Seq<char>, oid: Seq<u8>)
    requires
        verify == "SUCCESS"@,
    ensures
        spec_decide(None, Some(verify), oid) == Err::<Seq<char>, ErrorKind>(
            ErrorKind::MissingCertHeader,
        ),
        spec_status(spec_decide(None, Some(verify), oid)) == 401,
{
}

/// Exactly the inputs on which every layer of the extraction pipeline
/// succeeds authorize; on all others, the decision names the first layer
/// that failed.
pub proof fn extraction_fails_closed(cert: Seq<char>, oid: Seq<u8>)
    ensures
        spec_extract(cert, oid) is Ok <==> url_decoded(cert) is Some && pem_payload(
            url_decoded(cert).unwrap(),
        ) is Some && x509_accepted(pem_payload(url_decoded(cert).unwrap()).unwrap())
            && x509_extension_value(pem_payload(url_decoded(cert).unwrap()).unwrap(), oid) is Some,
{
}

} // verus!
