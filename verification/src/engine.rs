//! The auth decision engine and response encoder.
//!
//! A three-stage, strictly ordered, fail-closed path: check the proxy's
//! verification verdict, check that a certificate was forwarded at all,
//! then extract the attested identity from it. The first failing stage
//! ends the request; no stage is retried, and no state outlives a request.

use vstd::prelude::*;
use crate::extract::{app_id_oid, parse_and_verify_cert, spec_extract};

verus! {

/// The reason a request was denied, one per stage of the decision path.
/// It is logged locally and never echoed to the caller.
#[derive(Clone, Copy, Debug, PartialEq, Eq, Structural)]
pub enum ErrorKind {
    /// The proxy forwarded no verification verdict.
    MissingVerifyHeader,
    /// The proxy's verdict was present but not `SUCCESS`.
    VerifyNotSuccess,
    /// The verdict passed, but no certificate was forwarded.
    MissingCertHeader,
    /// The certificate header was not valid percent-encoded text.
    UrlDecodeError,
    /// The decoded bytes held no well-formed PEM block.
    PemParseError,
    /// The PEM payload was not a DER-encoded X.509 certificate.
    X509ParseError,
    /// The certificate holds no identity extension.
    MissingAppIdExtension,
}

/// The evidence the proxy forwards with each request: the raw client
/// certificate and the chain-verification verdict, either of which may be
/// absent. Built once per request and discarded with it.
pub struct AuthHeaders {
    pub client_cert: Option<String>,
    pub client_verify: Option<String>,
}

impl AuthHeaders {
    /// Copy the two forwarded header values, when present, into one
    /// evidence value. Never fails and never inspects the content.
    pub fn new(client_cert: Option<String>, client_verify: Option<String>) -> (r: AuthHeaders)
        ensures
            r.client_cert == client_cert,
            r.client_verify == client_verify,
    {
        AuthHeaders { client_cert, client_verify }
    }
}

/// The decision on one request: either the caller is authorized under the
/// extracted identity, or the request is denied for one recorded reason.
pub enum AuthOutcome {
    Authorized { app_id: String },
    Denied { reason: ErrorKind },
}

/// A successful decision, ready for the response encoder: carries the
/// lowercase hex identity that the response header surfaces.
pub struct AuthSuccessResponse {
    pub app_id: String,
}

/// What the engine decides on the two forwarded header values: the
/// verdict is checked first, then the certificate's presence, and only
/// then is the certificate read.
pub open spec fn spec_decide(
    cert: Option<Seq<char>>,
    verify: Option<Seq<char>>,
    oid: Seq<u8>,
) -> Result<Seq<char>, ErrorKind> {
    match verify {
        None => Err(ErrorKind::MissingVerifyHeader),
        Some(v) => if v != "SUCCESS"@ {
            Err(ErrorKind::VerifyNotSuccess)
        } else {
            match cert {
                None => Err(ErrorKind::MissingCertHeader),
                Some(c) => spec_extract(c, oid),
            }
        },
    }
}

/// Decide one request from its forwarded evidence, fail-closed at every
/// stage.
pub fn decide(headers: &AuthHeaders) -> (r: AuthOutcome)
    ensures
        r matches AuthOutcome::Authorized { app_id } ==> spec_decide(
            headers.client_cert.deep_view(),
            headers.client_verify.deep_view(),
            app_id_oid(),
        ) matches Ok(s) && app_id@ == s,
        r matches AuthOutcome::Denied { reason } ==> spec_decide(
            headers.client_cert.deep_view(),
            headers.client_verify.deep_view(),
            app_id_oid(),
        ) matches Err(e) && reason == e,
{
    match &headers.client_verify {
        None => AuthOutcome::Denied { reason: ErrorKind::MissingVerifyHeader },
        Some(v) => {
            let success: String = "SUCCESS".to_owned();
            if !(*v == success) {
                AuthOutcome::Denied { reason: ErrorKind::VerifyNotSuccess }
            } else {
                match &headers.client_cert {
                    None => AuthOutcome::Denied { reason: ErrorKind::MissingCertHeader },
                    Some(cert) => match parse_and_verify_cert(cert.as_str()) {
                        Ok(app_id) => AuthOutcome::Authorized { app_id },
                        Err(e) => AuthOutcome::Denied { reason: e },
                    },
                }
            }
        },
    }
}

/// The response header under which the authorized identity travels back
/// to the proxy.
pub const AUTH_ID_HEADER: &'static str = "x-dstack-app-id";

/// The HTTP status a decision maps to: 200 on success, 401 on any denial.
pub open spec fn spec_status(d: Result<Seq<char>, ErrorKind>) -> int {
    if d is Ok {
        200
    } else {
        401
    }
}

/// Map an outcome to its HTTP status and, on success only, the identity
/// header value. A denial carries no header and no detail: the reason is
/// never echoed to the caller.
pub fn encode_response(outcome: AuthOutcome) -> (r: (u16, Option<String>))
    ensures
        outcome matches AuthOutcome::Authorized { app_id } ==> r.0 == 200 && (
        r.1 matches Some(h) && h@ == app_id@),
        outcome is Denied ==> r.0 == 401 && r.1 is None,
{
    match outcome {
        AuthOutcome::Authorized { app_id } => (200, Some(app_id)),
        AuthOutcome::Denied { reason: _ } => (401, None),
    }
}

/// The whole request path: decide on the evidence, then encode the
/// response the proxy consumes.
pub fn handle_auth(headers: &AuthHeaders) -> (r: (u16, Option<String>))
    ensures
        r.0 == spec_status(
            spec_decide(
                headers.client_cert.deep_view(),
                headers.client_verify.deep_view(),
                app_id_oid(),
            ),
        ),
        spec_decide(
            headers.client_cert.deep_view(),
            headers.client_verify.deep_view(),
            app_id_oid(),
        ) matches Ok(s) ==> (r.1 matches Some(h) && h@ == s),
        spec_decide(
            headers.client_cert.deep_view(),
            headers.client_verify.deep_view(),
            app_id_oid(),
        ) is Err ==> r.1 is None,
{
    let outcome = decide(headers);
    encode_response(outcome)
}

/// Status of the liveness endpoint: 200, whatever the request held and
/// whatever the auth path would have decided.
pub fn health_status() -> (r: u16)
    ensures
        r == 200,
{
    200
}

} // verus!
