//! The TLS material of a node and the HTTPS client it sends with.
//!
//! reqwest reads the PEM files' bytes and builds the client; the values it
//! makes are opaque here, named after the bytes and settings they come from,
//! and carried through to the app.

use vstd::prelude::*;
use reqwest::Client as HttpsClient;

verus! {

#[verifier::external_type_specification]
#[verifier::external_body]
pub struct ExCertificate(reqwest::Certificate);

#[verifier::external_type_specification]
#[verifier::external_body]
pub struct ExIdentity(reqwest::Identity);

#[verifier::external_type_specification]
#[verifier::external_body]
pub struct ExReqwestError(reqwest::Error);

#[verifier::external_type_specification]
#[verifier::external_body]
pub struct ExHttpsClient(HttpsClient);

/// The certificate that reqwest makes of PEM bytes.
pub uninterp spec fn pem_certificate(pem: Seq<u8>) -> reqwest::Certificate;

/// The identity that reqwest makes of PEM bytes: `None` unless the bytes are
/// PEM items that are all certificates or private keys (PKCS#8, RSA or
/// SEC1), with at least one certificate and one key among them.
pub uninterp spec fn pem_identity(pem: Seq<u8>) -> Option<reqwest::Identity>;

/// Whether reqwest builds a rustls client from these settings, identity and
/// CA. Its source shows that only the CA and the identity can make it fail (a
/// CA that is no PEM certificate, a key that rustls refuses).
pub uninterp spec fn client_builds(
    built_in_roots: bool,
    https_only: bool,
    identity: reqwest::Identity,
    ca: reqwest::Certificate,
) -> bool;

/// `reqwest::Certificate::from_pem`. With the rustls backend it keeps a copy
/// of the bytes for later and cannot fail: the result is `Ok` and holds the
/// certificate that `pem_certificate` names.
#[verifier::external_body]
fn reqwest_certificate_from_pem(pem: &[u8]) -> (result: Result<reqwest::Certificate, reqwest::Error>)
    ensures
        result is Ok,
        result matches Ok(cert) ==> cert == pem_certificate(pem@),
{
    reqwest::Certificate::from_pem(pem)
}

/// `reqwest::Identity::from_pem`. It parses the PEM items; the result is `Ok`
/// exactly where `pem_identity` names an identity, and holds it.
#[verifier::external_body]
fn reqwest_identity_from_pem(pem: &[u8]) -> (result: Result<reqwest::Identity, reqwest::Error>)
    ensures
        result is Ok <==> pem_identity(pem@) is Some,
        result matches Ok(identity) ==> pem_identity(pem@) == Some(identity),
{
    reqwest::Identity::from_pem(pem)
}

/// What a node's HTTPS client is told besides its CA and identity.
#[derive(Clone, Copy, Debug, PartialEq, Eq, Structural)]
pub struct TlsSettings {
    /// Whether the built-in root certificates are trusted.
    pub built_in_roots: bool,
    /// Whether only `https` URLs may be requested.
    pub https_only: bool,
}

/// `reqwest::Client::builder()` followed by `use_rustls_tls`,
/// `tls_built_in_root_certs`, `add_root_certificate`, `identity`,
/// `https_only` and `build`, each given its setting or argument as it is.
/// The result is `Ok` exactly where `client_builds` holds of them.
#[verifier::external_body]
fn reqwest_build_client(
    settings: TlsSettings,
    identity: reqwest::Identity,
    ca: reqwest::Certificate,
) -> (result: Result<HttpsClient, reqwest::Error>)
    ensures
        result is Ok <==> client_builds(settings.built_in_roots, settings.https_only, identity, ca),
{
    HttpsClient::builder()
        .use_rustls_tls()
        .tls_built_in_root_certs(settings.built_in_roots)
        .add_root_certificate(ca)
        .identity(identity)
        .https_only(settings.https_only)
        .build()
}

/// Why a node could not set up its TLS client.
#[derive(Debug)]
pub enum SetupError {
    /// The identity file is not a PEM certificate and key.
    Identity,
    /// reqwest could not build the client from the identity and CA; its
    /// error says why.
    Client(reqwest::Error),
}

/// The settings of every node's client: only the node's own CA is trusted,
/// not the built-in roots, and only `https` is used.
pub fn node_tls_settings() -> (settings: TlsSettings)
    ensures
        settings == (TlsSettings { built_in_roots: false, https_only: true }),
{
    TlsSettings { built_in_roots: false, https_only: true }
}

/// The CA certificate in PEM bytes, as reqwest keeps it.
pub fn certificate_from_pem(pem: &[u8]) -> (cert: reqwest::Certificate)
    ensures
        cert == pem_certificate(pem@),
{
    match reqwest_certificate_from_pem(pem) {
        Ok(cert) => cert,
        Err(_) => vstd::pervasive::unreached(),
    }
}

/// The node's identity (certificate and private key) in PEM bytes: refused
/// exactly where reqwest cannot read the bytes as an identity.
pub fn identity_from_pem(pem: &[u8]) -> (identity: Result<reqwest::Identity, SetupError>)
    ensures
        identity is Ok <==> pem_identity(pem@) is Some,
        identity matches Ok(id) ==> pem_identity(pem@) == Some(id),
        identity matches Err(e) ==> e is Identity,
{
    match reqwest_identity_from_pem(pem) {
        Ok(identity) => Ok(identity),
        Err(_) => Err(SetupError::Identity),
    }
}

/// The HTTPS client a node sends with: rustls, with the settings of
/// `node_tls_settings` (no built-in roots, only `https`), trusting `ca` and
/// presenting `identity`. It is built exactly where reqwest builds a client
/// of these; otherwise reqwest's error comes back as `SetupError::Client`.
pub fn build_client(identity: reqwest::Identity, ca: reqwest::Certificate) -> (client: Result<HttpsClient, SetupError>)
    ensures
        client is Ok <==> client_builds(false, true, identity, ca),
        client matches Err(e) ==> e is Client,
{
    match reqwest_build_client(node_tls_settings(), identity, ca) {
        Ok(client) => Ok(client),
        Err(error) => Err(SetupError::Client(error)),
    }
}

} // verus!
