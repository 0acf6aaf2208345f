//! The mutually authenticated TLS channel to the provider: a client bound to
//! one client identity, one pinned trust anchor and a per-request timeout.

use vstd::prelude::*;
use vstd::string::*;

verus! {

/// Longest PEM input, in bytes, that OpenSSL's memory buffer takes.
pub const MAX_PEM_LEN: usize = 0x7fff_ffff;

/// Whether the text holds a NUL character.
pub open spec fn has_nul(s: Seq<char>) -> bool {
    exists|i: int| 0 <= i < s.len() && s[i] == '\0'
}

/// Scans the text for a NUL character.
pub fn contains_nul(s: &str) -> (r: bool)
    ensures
        r == has_nul(s@),
{
    let n = s.unicode_len();
    let mut i: usize = 0;
    while i < n
        invariant
            n == s@.len(),
            i <= n,
            forall|j: int| 0 <= j < i ==> s@[j] != '\0',
        decreases n - i,
    {
        if s.get_char(i) == '\0' {
            return true;
        }
        i = i + 1;
    }
    false
}

/// Timeout of one request, in seconds, when none is configured.
pub const DEFAULT_TIMEOUT_SECS: u64 = 10;

#[verifier::external_type_specification]
#[verifier::external_body]
pub struct ExCertificate(reqwest::Certificate);

#[verifier::external_type_specification]
#[verifier::external_body]
pub struct ExIdentity(reqwest::Identity);

#[verifier::external_type_specification]
#[verifier::external_body]
pub struct ExClient(reqwest::Client);

#[verifier::external_type_specification]
#[verifier::external_body]
pub struct ExClientBuilder(reqwest::ClientBuilder);

#[verifier::external_type_specification]
#[verifier::external_body]
pub struct ExReqwestError(reqwest::Error);

/// Relies on reqwest::Certificate::from_pem to parse the server's trust
/// anchor; whether it succeeds is left open. OpenSSL's memory buffer panics
/// on input longer than `MAX_PEM_LEN`.
pub assume_specification[ reqwest::Certificate::from_pem ](pem: &[u8]) -> Result<
    reqwest::Certificate,
    reqwest::Error,
>
    requires
        pem@.len() <= MAX_PEM_LEN,
;

/// Relies on reqwest::Identity::from_pkcs12_der to open the client identity
/// with its password; whether it succeeds is left open.
pub assume_specification[ reqwest::Identity::from_pkcs12_der ](
    der: &[u8],
    password: &str,
) -> Result<reqwest::Identity, reqwest::Error>
    requires
        !has_nul(password@),
;

/// Relies on reqwest::Identity::from_pkcs8_pem to read a client identity
/// from PEM certificates and a PEM PKCS#8 key; whether it succeeds is left
/// open. OpenSSL's memory buffer panics on input longer than `MAX_PEM_LEN`.
pub assume_specification[ reqwest::Identity::from_pkcs8_pem ](pem: &[u8], key: &[u8]) -> Result<
    reqwest::Identity,
    reqwest::Error,
>
    requires
        pem@.len() <= MAX_PEM_LEN,
        key@.len() <= MAX_PEM_LEN,
;

/// Relies on reqwest::Client::builder for a builder with default settings.
pub assume_specification[ reqwest::Client::builder ]() -> reqwest::ClientBuilder;

/// Relies on reqwest::ClientBuilder::identity to set the client identity.
pub assume_specification[ reqwest::ClientBuilder::identity ](
    b: reqwest::ClientBuilder,
    identity: reqwest::Identity,
) -> reqwest::ClientBuilder;

/// Relies on reqwest::ClientBuilder::add_root_certificate to trust a root.
pub assume_specification[ reqwest::ClientBuilder::add_root_certificate ](
    b: reqwest::ClientBuilder,
    cert: reqwest::Certificate,
) -> reqwest::ClientBuilder;

/// Relies on reqwest::ClientBuilder::gzip to switch response decompression.
pub assume_specification[ reqwest::ClientBuilder::gzip ](
    b: reqwest::ClientBuilder,
    enable: bool,
) -> reqwest::ClientBuilder;

/// Relies on reqwest::ClientBuilder::timeout to set the per-request timeout.
pub assume_specification[ reqwest::ClientBuilder::timeout ](
    b: reqwest::ClientBuilder,
    timeout: core::time::Duration,
) -> reqwest::ClientBuilder;

/// Relies on reqwest::ClientBuilder::build to make the client; it may fail
/// when the TLS backend cannot be set up.
pub assume_specification[ reqwest::ClientBuilder::build ](b: reqwest::ClientBuilder) -> Result<
    reqwest::Client,
    reqwest::Error,
>;

/// Relies on Duration::from_secs for a duration of whole seconds.
pub assume_specification[ core::time::Duration::from_secs ](secs: u64) -> core::time::Duration;

/// The configured timeout, or the default where no valid one was given.
pub fn timeout_or_default(configured: Option<u64>) -> (r: u64)
    ensures
        configured matches Some(t) ==> r == t,
        configured is None ==> r == DEFAULT_TIMEOUT_SECS,
{
    match configured {
        Some(t) => t,
        None => DEFAULT_TIMEOUT_SECS,
    }
}

/// Why a channel could not be set up. Each is fatal: there is no degraded
/// channel.
#[derive(Clone, Copy, Debug, PartialEq, Eq, Structural)]
pub enum ConfigurationError {
    /// The server's trust anchor is missing or malformed.
    TrustAnchor,
    /// The client identity is malformed or its password is wrong.
    Identity,
    /// The client could not be built from valid material.
    Client,
}

/// A client for the provider, reusable for many requests.
pub struct SecureChannel {
    pub end_point: String,
    pub client: reqwest::Client,
    pub timeout_secs: u64,
}

impl SecureChannel {
    /// Builds the channel from material that has been parsed already. The
    /// trust anchor is looked at first, then the identity; a client is built
    /// only when both are valid, and nothing here reaches the network.
    pub fn from_parsed(
        end_point: String,
        trust_anchor: Result<reqwest::Certificate, reqwest::Error>,
        identity: Result<reqwest::Identity, reqwest::Error>,
        timeout_secs: u64,
    ) -> (r: Result<SecureChannel, ConfigurationError>)
        ensures
            trust_anchor is Err ==> r == Err::<SecureChannel, ConfigurationError>(
                ConfigurationError::TrustAnchor,
            ),
            trust_anchor is Ok && identity is Err ==> r == Err::<
                SecureChannel,
                ConfigurationError,
            >(ConfigurationError::Identity),
            trust_anchor is Ok && identity is Ok ==> (r is Ok || r == Err::<
                SecureChannel,
                ConfigurationError,
            >(ConfigurationError::Client)),
            identity is Err ==> r is Err,
            r matches Ok(c) ==> c.end_point == end_point && c.timeout_secs == timeout_secs,
    {
        let cert = match trust_anchor {
            Ok(c) => c,
            Err(_) => return Err(ConfigurationError::TrustAnchor),
        };
        let id = match identity {
            Ok(i) => i,
            Err(_) => return Err(ConfigurationError::Identity),
        };
        let builder = reqwest::Client::builder();
        let builder = builder.identity(id);
        let builder = builder.add_root_certificate(cert);
        let builder = builder.gzip(true);
        let builder = builder.timeout(core::time::Duration::from_secs(timeout_secs));
        match builder.build() {
            Ok(client) => Ok(SecureChannel { end_point, client, timeout_secs }),
            Err(_) => Err(ConfigurationError::Client),
        }
    }

    /// Builds the channel from a PEM trust anchor and a PKCS#12 client
    /// identity with its password. A malformed or oversized anchor, or an
    /// identity that does not open with the password (or a password with a
    /// NUL character), fails with a configuration error.
    pub fn new(
        end_point: &str,
        trust_anchor_pem: &[u8],
        identity_der: &[u8],
        password: &str,
        timeout_secs: u64,
    ) -> (r: Result<SecureChannel, ConfigurationError>)
        ensures
            trust_anchor_pem@.len() > MAX_PEM_LEN ==> r == Err::<SecureChannel, ConfigurationError>(
                ConfigurationError::TrustAnchor,
            ),
            trust_anchor_pem@.len() <= MAX_PEM_LEN && has_nul(password@) ==> r == Err::<
                SecureChannel,
                ConfigurationError,
            >(ConfigurationError::Identity),
            r matches Ok(c) ==> c.end_point@ == end_point@ && c.timeout_secs == timeout_secs,
    {
        if trust_anchor_pem.len() > MAX_PEM_LEN {
            return Err(ConfigurationError::TrustAnchor);
        }
        if contains_nul(password) {
            return Err(ConfigurationError::Identity);
        }
        let cert = reqwest::Certificate::from_pem(trust_anchor_pem);
        let id = reqwest::Identity::from_pkcs12_der(identity_der, password);
        SecureChannel::from_parsed(String::from_str(end_point), cert, id, timeout_secs)
    }

    /// Builds the channel from a PEM trust anchor and a PEM client identity
    /// that holds its PKCS#8 key first and then its certificate chain. Bad
    /// or oversized material fails with a configuration error.
    pub fn from_pem(
        end_point: &str,
        trust_anchor_pem: &[u8],
        identity_pem: &[u8],
        timeout_secs: u64,
    ) -> (r: Result<SecureChannel, ConfigurationError>)
        ensures
            trust_anchor_pem@.len() > MAX_PEM_LEN ==> r == Err::<SecureChannel, ConfigurationError>(
                ConfigurationError::TrustAnchor,
            ),
            trust_anchor_pem@.len() <= MAX_PEM_LEN && identity_pem@.len() > MAX_PEM_LEN ==> r
                == Err::<SecureChannel, ConfigurationError>(ConfigurationError::Identity),
            r matches Ok(c) ==> c.end_point@ == end_point@ && c.timeout_secs == timeout_secs,
    {
        if trust_anchor_pem.len() > MAX_PEM_LEN {
            return Err(ConfigurationError::TrustAnchor);
        }
        if identity_pem.len() > MAX_PEM_LEN {
            return Err(ConfigurationError::Identity);
        }
        let cert = reqwest::Certificate::from_pem(trust_anchor_pem);
        let id = reqwest::Identity::from_pkcs8_pem(identity_pem, identity_pem);
        SecureChannel::from_parsed(String::from_str(end_point), cert, id, timeout_secs)
    }
}

} // verus!
