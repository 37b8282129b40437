//! The TLS material of the two sides, and the transport settings that go with it.

use vstd::prelude::*;
use crate::config::TlsConfig;
use quinn::ClientConfig as QuinnClientConfig;
use quinn::ServerConfig as QuinnServerConfig;
use rustls::ClientConfig as RustlsClientConfig;
use rustls::ServerConfig as RustlsServerConfig;
use std::sync::Arc;
use std::time::Duration;

verus! {

/// How long a QUIC connection may be idle, in seconds.
pub const MAX_IDLE_SECS: u64 = 60;

/// How often an idle QUIC client speaks up, in seconds.
pub const KEEP_ALIVE_SECS: u64 = 20;

/// The error of reading PEM, which is carried and never looked into.
#[verifier::external_type_specification]
#[verifier::external_body]
pub struct ExIoError(std::io::Error);

/// The error of rustls, which is carried and never looked into.
#[verifier::external_type_specification]
#[verifier::external_body]
pub struct ExRustlsError(rustls::Error);

/// The TLS settings of a server.
#[verifier::external_type_specification]
#[verifier::external_body]
pub struct ExRustlsServerConfig(RustlsServerConfig);

/// The TLS settings of a client.
#[verifier::external_type_specification]
#[verifier::external_body]
pub struct ExRustlsClientConfig(RustlsClientConfig);

/// The certificates that a client trusts.
#[verifier::external_type_specification]
#[verifier::external_body]
pub struct ExRootCertStore(rustls::RootCertStore);

/// The error of a verifier without roots, which is carried and never looked into.
#[verifier::external_type_specification]
#[verifier::external_body]
pub struct ExVerifierBuilderError(rustls::client::VerifierBuilderError);

/// The error of TLS settings that QUIC cannot use, which is carried and never
/// looked into.
#[verifier::external_type_specification]
#[verifier::external_body]
pub struct ExNoInitialCipherSuite(quinn::crypto::rustls::NoInitialCipherSuite);

/// The TLS settings of a QUIC server.
#[verifier::external_type_specification]
#[verifier::external_body]
pub struct ExQuicServerCrypto(quinn::crypto::rustls::QuicServerConfig);

/// The error of a number that is too large for QUIC, which is carried and never
/// looked into.
#[verifier::external_type_specification]
#[verifier::external_body]
pub struct ExVarIntBoundsExceeded(quinn::VarIntBoundsExceeded);

/// The transport settings of a QUIC connection.
#[verifier::external_type_specification]
#[verifier::external_body]
pub struct ExTransportConfig(quinn::TransportConfig);

/// The settings of a QUIC server.
#[verifier::external_type_specification]
#[verifier::external_body]
pub struct ExQuinnServerConfig(QuinnServerConfig);

/// The settings of a QUIC client.
#[verifier::external_type_specification]
#[verifier::external_body]
pub struct ExQuinnClientConfig(QuinnClientConfig);

/// What a trust anchor holds: its subject, its public key information and its
/// name constraints, each in DER.
pub type Anchor = (Seq<u8>, Seq<u8>, Option<Seq<u8>>);

/// The idle timeout and the keep-alive interval of a QUIC connection, in
/// milliseconds; `None` where there is none.
pub type Timers = (Option<nat>, Option<nat>);

/// The certificates, in DER, that `rustls_pemfile::certs` finds in a PEM text, and
/// `None` where it fails.
pub uninterp spec fn pem_certificates(pem: Seq<char>) -> Option<Seq<Seq<u8>>>;

/// The private keys, in DER, that `rustls_pemfile::pkcs8_private_keys` finds in a PEM
/// text, and `None` where it fails.
pub uninterp spec fn pem_pkcs8_keys(pem: Seq<char>) -> Option<Seq<Seq<u8>>>;

/// Whether `rustls_pemfile::certs` can fail for a PEM text with this error.
pub uninterp spec fn certificates_refusal(pem: Seq<char>, error: std::io::Error) -> bool;

/// Whether `rustls_pemfile::pkcs8_private_keys` can fail for a PEM text with this error.
pub uninterp spec fn keys_refusal(pem: Seq<char>, error: std::io::Error) -> bool;

/// Whether, under some cryptography provider, `with_single_cert` can refuse a chain and
/// a key with this error.
pub uninterp spec fn identity_refusal(
    chain: Seq<Seq<u8>>,
    key: Seq<u8>,
    error: rustls::Error,
) -> bool;

/// Whether `rustls::RootCertStore::add` can refuse a DER certificate with this error.
pub uninterp spec fn root_refusal(der: Seq<u8>, error: rustls::Error) -> bool;

/// The trust anchor that `rustls::RootCertStore::add` makes of a DER certificate, and
/// `None` where it fails.
pub uninterp spec fn trust_anchor(der: Seq<u8>) -> Option<Anchor>;

/// The anchors that a root store holds, in order.
pub uninterp spec fn store_anchors(store: rustls::RootCertStore) -> Seq<Anchor>;

/// The anchors that a TLS client trusts.
pub uninterp spec fn trusted(config: RustlsClientConfig) -> Seq<Anchor>;

/// What a TLS server presents: its certificate chain, and behind it its private key.
pub uninterp spec fn presented(config: RustlsServerConfig) -> Seq<Seq<u8>>;

/// Whether a TLS server asks its clients for a certificate.
pub uninterp spec fn client_auth_asked(config: RustlsServerConfig) -> bool;

/// Whether a TLS client has a certificate to offer.
pub uninterp spec fn client_cert_offered(config: RustlsClientConfig) -> bool;

/// Whether `quinn::crypto::rustls::QuicServerConfig::try_from` takes the settings.
pub uninterp spec fn quic_capable(config: RustlsServerConfig) -> bool;

/// Whether `quinn::crypto::rustls::QuicServerConfig::try_from` can refuse the settings
/// with this error.
pub uninterp spec fn quic_refusal(
    config: RustlsServerConfig,
    error: quinn::crypto::rustls::NoInitialCipherSuite,
) -> bool;

/// What the TLS settings of a QUIC server present.
pub uninterp spec fn crypto_presented(
    crypto: quinn::crypto::rustls::QuicServerConfig,
) -> Seq<Seq<u8>>;

/// Whether the TLS settings of a QUIC server ask for a client's certificate.
pub uninterp spec fn crypto_client_auth_asked(
    crypto: quinn::crypto::rustls::QuicServerConfig,
) -> bool;

/// The timers of transport settings.
pub uninterp spec fn transport_timers(transport: quinn::TransportConfig) -> Timers;

/// What a QUIC server presents.
pub uninterp spec fn quic_presented(config: QuinnServerConfig) -> Seq<Seq<u8>>;

/// Whether a QUIC server asks its clients for a certificate.
pub uninterp spec fn quic_client_auth_asked(config: QuinnServerConfig) -> bool;

/// The timers of a QUIC server's connections.
pub uninterp spec fn quic_server_timers(config: QuinnServerConfig) -> Timers;

/// The anchors that a QUIC client trusts.
pub uninterp spec fn quic_trusted(config: QuinnClientConfig) -> Seq<Anchor>;

/// Whether a QUIC client has a certificate to offer.
pub uninterp spec fn quic_client_cert_offered(config: QuinnClientConfig) -> bool;

/// The timers of a QUIC client's connections.
pub uninterp spec fn quic_client_timers(config: QuinnClientConfig) -> Timers;

/// The byte strings that a list of vectors holds.
pub open spec fn byte_strings(items: Seq<Vec<u8>>) -> Seq<Seq<u8>> {
    Seq::new(items.len(), |i: int| items[i]@)
}

/// Seconds as milliseconds.
pub open spec fn millis(secs: u64) -> nat {
    (secs * 1000) as nat
}

/// Calls `rustls_pemfile::certs` on the bytes of the text. The outcome depends on the
/// text alone.
#[verifier::external_body]
fn read_certificates(pem: &String) -> (items: Result<Vec<Vec<u8>>, std::io::Error>)
    ensures
        match items {
            Ok(ders) => pem_certificates(pem@) == Some(byte_strings(ders@)),
            Err(e) => pem_certificates(pem@) is None && certificates_refusal(pem@, e),
        },
{
    rustls_pemfile::certs(&mut std::io::Cursor::new(pem))
}

/// Calls `rustls_pemfile::pkcs8_private_keys` on the bytes of the text. The outcome
/// depends on the text alone.
#[verifier::external_body]
fn read_pkcs8_keys(pem: &String) -> (items: Result<Vec<Vec<u8>>, std::io::Error>)
    ensures
        match items {
            Ok(ders) => pem_pkcs8_keys(pem@) == Some(byte_strings(ders@)),
            Err(e) => pem_pkcs8_keys(pem@) is None && keys_refusal(pem@, e),
        },
{
    rustls_pemfile::pkcs8_private_keys(&mut std::io::Cursor::new(pem))
}

/// Calls `rustls::ServerConfig::builder`, without client authentication, and
/// `with_single_cert`. A server that is built presents this chain with this PKCS#8
/// key, and asks its clients for no certificate. Whether it is built rests with the
/// cryptography provider of the process, which reads the key, and is not stated: a
/// refusal is one of this chain and this key.
#[verifier::external_body]
fn single_cert_server(chain: Vec<Vec<u8>>, key: Vec<u8>) -> (config: Result<
    RustlsServerConfig,
    rustls::Error,
>)
    ensures
        match config {
            Ok(c) => {
                &&& presented(c) == byte_strings(chain@).push(key@)
                &&& !client_auth_asked(c)
            },
            Err(e) => identity_refusal(byte_strings(chain@), key@, e),
        },
{
    let chain = chain.into_iter().map(rustls::pki_types::CertificateDer::from).collect();
    let key = rustls::pki_types::PrivatePkcs8KeyDer::from(key);
    RustlsServerConfig::builder().with_no_client_auth().with_single_cert(chain, key.into())
}

/// Calls `rustls::RootCertStore::empty`, which makes a store without anchors.
#[verifier::external_body]
fn empty_store() -> (store: rustls::RootCertStore)
    ensures
        store_anchors(store) == Seq::<Anchor>::empty(),
{
    rustls::RootCertStore::empty()
}

/// Calls `rustls::RootCertStore::add`: the anchor made of the certificate goes behind
/// those in the store, and where none can be made the store stays as it is. Which
/// anchor is made depends on the certificate alone.
#[verifier::external_body]
fn add_root(store: &mut rustls::RootCertStore, der: Vec<u8>) -> (added: Result<(), rustls::Error>)
    ensures
        match added {
            Ok(_) => {
                &&& trust_anchor(der@) is Some
                &&& store_anchors(*final(store)) == store_anchors(*old(store)).push(
                    trust_anchor(der@)->0,
                )
            },
            Err(e) => {
                &&& trust_anchor(der@) is None
                &&& root_refusal(der@, e)
                &&& store_anchors(*final(store)) == store_anchors(*old(store))
            },
        },
{
    store.add(rustls::pki_types::CertificateDer::from(der))
}

/// Calls `rustls::ClientConfig::builder`, `with_root_certificates` and
/// `with_no_client_auth`. The client trusts the anchors of the store, and has no
/// certificate to offer.
#[verifier::external_body]
fn client_with_roots(store: rustls::RootCertStore) -> (config: RustlsClientConfig)
    ensures
        trusted(config) == store_anchors(store),
        !client_cert_offered(config),
{
    RustlsClientConfig::builder().with_root_certificates(Arc::new(store)).with_no_client_auth()
}

/// Calls `quinn::crypto::rustls::QuicServerConfig::try_from` on a copy of the settings.
/// It takes those whose cryptography provider has the cipher suite that QUIC begins
/// with, and keeps what they present and ask for.
#[verifier::external_body]
fn quic_crypto(config: &RustlsServerConfig) -> (crypto: Result<
    quinn::crypto::rustls::QuicServerConfig,
    quinn::crypto::rustls::NoInitialCipherSuite,
>)
    ensures
        match crypto {
            Ok(c) => {
                &&& quic_capable(*config)
                &&& crypto_presented(c) == presented(*config)
                &&& crypto_client_auth_asked(c) == client_auth_asked(*config)
            },
            Err(e) => !quic_capable(*config) && quic_refusal(*config, e),
        },
{
    quinn::crypto::rustls::QuicServerConfig::try_from(config.clone())
}

/// Calls `max_idle_timeout` and `keep_alive_interval` on the default
/// `quinn::TransportConfig`. QUIC holds the idle timeout in milliseconds, as a number
/// below 2 to the power of 62.
#[verifier::external_body]
fn quic_transport(idle_secs: u64, keep_alive_secs: Option<u64>) -> (transport: Result<
    quinn::TransportConfig,
    quinn::VarIntBoundsExceeded,
>)
    ensures
        transport is Ok <==> millis(idle_secs) < 0x4000_0000_0000_0000,
        transport matches Ok(t) ==> transport_timers(t) == (
            Some(millis(idle_secs)),
            match keep_alive_secs {
                Some(secs) => Some(millis(secs)),
                None => None::<nat>,
            },
        ),
{
    let idle = quinn::IdleTimeout::try_from(Duration::from_secs(idle_secs))?;
    let mut transport = quinn::TransportConfig::default();
    transport.max_idle_timeout(Some(idle));
    transport.keep_alive_interval(keep_alive_secs.map(Duration::from_secs));
    Ok(transport)
}

/// Calls `quinn::ServerConfig::with_crypto` and sets the transport.
#[verifier::external_body]
fn quic_server(
    crypto: quinn::crypto::rustls::QuicServerConfig,
    transport: quinn::TransportConfig,
) -> (config: QuinnServerConfig)
    ensures
        quic_presented(config) == crypto_presented(crypto),
        quic_client_auth_asked(config) == crypto_client_auth_asked(crypto),
        quic_server_timers(config) == transport_timers(transport),
{
    let mut config = QuinnServerConfig::with_crypto(Arc::new(crypto));
    config.transport = Arc::new(transport);
    config
}

/// Calls `quinn::ClientConfig::with_root_certificates`, which fails for a store
/// without anchors and for no other, and `transport_config`. The client has no
/// certificate to offer.
#[verifier::external_body]
fn quic_client(store: rustls::RootCertStore, transport: quinn::TransportConfig) -> (config: Result<
    QuinnClientConfig,
    rustls::client::VerifierBuilderError,
>)
    ensures
        config is Ok <==> store_anchors(store).len() > 0,
        config matches Ok(c) ==> {
            &&& quic_trusted(c) == store_anchors(store)
            &&& !quic_client_cert_offered(c)
            &&& quic_client_timers(c) == transport_timers(transport)
        },
{
    let mut config = QuinnClientConfig::with_root_certificates(Arc::new(store))?;
    config.transport_config(Arc::new(transport));
    Ok(config)
}

/// Why there are no TLS settings.
pub enum TlsError {
    /// The PEM text is malformed.
    Pem(std::io::Error),
    /// A server was given no private key.
    NoKey,
    /// rustls refuses the material.
    Rustls(rustls::Error),
    /// QUIC cannot use the TLS settings.
    Cipher(quinn::crypto::rustls::NoInitialCipherSuite),
    /// The idle timeout is too long for QUIC.
    IdleTimeout(quinn::VarIntBoundsExceeded),
    /// There is no certificate to trust.
    NoRoots(rustls::client::VerifierBuilderError),
}

impl TlsError {
    /// The error in words, where no outside error has words of its own for it.
    pub fn message(&self) -> (text: Option<&'static str>)
        ensures
            match self {
                TlsError::NoKey => text matches Some(t) && t@ == "No key provided"@,
                _ => text is None,
            },
    {
        match self {
            TlsError::NoKey => Some("No key provided"),
            _ => None,
        }
    }
}

/// The certificate chain of a server, and its private key, in DER.
pub struct ServerIdentity {
    pub chain: Vec<Vec<u8>>,
    pub key: Vec<u8>,
}

/// Both PEM texts of a server can be read.
pub open spec fn server_pem_reads(tls: TlsConfig) -> bool {
    &&& pem_certificates(tls.cert@) is Some
    &&& tls.key is Some
    &&& pem_pkcs8_keys(tls.key->0@) is Some
}

/// Where both PEM texts of a server can be read, one holds a private key.
pub open spec fn server_key_present(tls: TlsConfig) -> bool {
    server_pem_reads(tls) ==> pem_pkcs8_keys(tls.key->0@)->0.len() > 0
}

/// What a server with this material presents.
pub open spec fn server_presents(tls: TlsConfig) -> Seq<Seq<u8>> {
    pem_certificates(tls.cert@)->0.push(pem_pkcs8_keys(tls.key->0@)->0[0])
}

/// The PEM text of a client holds a certificate.
pub open spec fn client_root_present(tls: TlsConfig) -> bool {
    &&& pem_certificates(tls.cert@) is Some
    &&& pem_certificates(tls.cert@)->0.len() > 0
}

/// The trust anchor of a client: that of the first certificate.
pub open spec fn client_anchor(tls: TlsConfig) -> Option<Anchor> {
    trust_anchor(pem_certificates(tls.cert@)->0[0])
}

/// Which error the material of a server leads to, before rustls sees it.
pub open spec fn server_error(tls: TlsConfig, e: TlsError) -> bool {
    if pem_certificates(tls.cert@) is None {
        e matches TlsError::Pem(cause) && certificates_refusal(tls.cert@, cause)
    } else if tls.key is None {
        e is NoKey
    } else {
        &&& pem_pkcs8_keys(tls.key->0@) is None
        &&& e matches TlsError::Pem(cause) && keys_refusal(tls.key->0@, cause)
    }
}

/// What comes of loading the TLS settings of a server.
pub open spec fn server_outcome(
    tls: TlsConfig,
    config: Result<RustlsServerConfig, TlsError>,
) -> bool {
    match config {
        Ok(c) => {
            &&& server_pem_reads(tls)
            &&& presented(c) == server_presents(tls)
            &&& !client_auth_asked(c)
        },
        Err(e) => if server_pem_reads(tls) {
            e matches TlsError::Rustls(cause) && identity_refusal(
                pem_certificates(tls.cert@)->0,
                pem_pkcs8_keys(tls.key->0@)->0[0],
                cause,
            )
        } else {
            server_error(tls, e)
        },
    }
}

/// What comes of making the settings of a QUIC server out of TLS settings.
pub open spec fn quic_outcome(
    rustls_config: RustlsServerConfig,
    config: Result<QuinnServerConfig, TlsError>,
) -> bool {
    match config {
        Ok(c) => {
            &&& quic_capable(rustls_config)
            &&& quic_presented(c) == presented(rustls_config)
            &&& quic_client_auth_asked(c) == client_auth_asked(rustls_config)
            &&& quic_server_timers(c) == (Some(60_000nat), None::<nat>)
        },
        Err(e) => {
            &&& !quic_capable(rustls_config)
            &&& e matches TlsError::Cipher(cause) && quic_refusal(rustls_config, cause)
        },
    }
}

/// What comes of making the settings of a QUIC server out of TLS settings that may not
/// have come about.
pub open spec fn quic_outcome_of(
    loaded: Result<RustlsServerConfig, TlsError>,
    config: Result<QuinnServerConfig, TlsError>,
) -> bool {
    match loaded {
        Ok(rustls_config) => quic_outcome(rustls_config, config),
        Err(e) => config == Err::<QuinnServerConfig, TlsError>(e),
    }
}

/// What comes of loading the TLS settings of a server and making those of a QUIC server
/// out of them.
pub open spec fn quic_server_outcome(
    tls: TlsConfig,
    config: Result<QuinnServerConfig, TlsError>,
) -> bool {
    exists|loaded: Result<RustlsServerConfig, TlsError>| #[trigger]
        server_outcome(tls, loaded) && quic_outcome_of(loaded, config)
}

/// The error of a client whose first certificate cannot be trusted.
pub open spec fn client_error(tls: TlsConfig, e: TlsError) -> bool {
    &&& client_anchor(tls) is None
    &&& e matches TlsError::Rustls(cause) && root_refusal(
        pem_certificates(tls.cert@)->0[0],
        cause,
    )
}

/// What comes of loading the TLS settings of a client.
pub open spec fn client_outcome(
    tls: TlsConfig,
    config: Result<RustlsClientConfig, TlsError>,
) -> bool {
    match config {
        Ok(c) => {
            &&& client_anchor(tls) is Some
            &&& trusted(c) == seq![client_anchor(tls)->0]
            &&& !client_cert_offered(c)
        },
        Err(e) => client_error(tls, e),
    }
}

/// What comes of loading the settings of a QUIC client.
pub open spec fn quic_client_outcome(
    tls: TlsConfig,
    config: Result<QuinnClientConfig, TlsError>,
) -> bool {
    match config {
        Ok(c) => {
            &&& client_anchor(tls) is Some
            &&& quic_trusted(c) == seq![client_anchor(tls)->0]
            &&& !quic_client_cert_offered(c)
            &&& quic_client_timers(c) == (Some(60_000nat), Some(20_000nat))
        },
        Err(e) => client_error(tls, e),
    }
}

/// Whether the PEM texts of a server, where both can be read, hold a private key.
pub fn has_server_key(tls: &TlsConfig) -> (present: bool)
    ensures
        present == server_key_present(*tls),
{
    match read_certificates(&tls.cert) {
        Err(_) => true,
        Ok(_) => match &tls.key {
            None => true,
            Some(key) => match read_pkcs8_keys(key) {
                Err(_) => true,
                Ok(keys) => keys.len() > 0,
            },
        },
    }
}

/// Whether the PEM text of a client can be read and holds a certificate.
pub fn has_client_root(tls: &TlsConfig) -> (present: bool)
    ensures
        present == client_root_present(*tls),
{
    match read_certificates(&tls.cert) {
        Err(_) => false,
        Ok(certs) => certs.len() > 0,
    }
}

/// The certificate chain of a server and the first of its private keys, out of what the
/// PEM texts gave; the certificates are looked at first, and `keys` is `None` where there
/// is no key text.
pub fn identity_of(
    certs: Result<Vec<Vec<u8>>, std::io::Error>,
    keys: Option<Result<Vec<Vec<u8>>, std::io::Error>>,
) -> (identity: Result<ServerIdentity, TlsError>)
    requires
        certs is Ok && keys is Some && keys->0 is Ok ==> keys->0->Ok_0@.len() > 0,
    ensures
        identity == match (certs, keys) {
            (Err(e), _) => Err::<ServerIdentity, TlsError>(TlsError::Pem(e)),
            (Ok(_), None) => Err::<ServerIdentity, TlsError>(TlsError::NoKey),
            (Ok(_), Some(Err(e))) => Err::<ServerIdentity, TlsError>(TlsError::Pem(e)),
            (Ok(c), Some(Ok(k))) => Ok::<ServerIdentity, TlsError>(
                (ServerIdentity { chain: c, key: k@[0] }),
            ),
        },
{
    let chain = match certs {
        Ok(certs) => certs,
        Err(e) => return Err(TlsError::Pem(e)),
    };
    match keys {
        None => Err(TlsError::NoKey),
        Some(Err(e)) => Err(TlsError::Pem(e)),
        Some(Ok(keys)) => {
            let mut keys = keys;
            let key = keys.remove(0);
            Ok(ServerIdentity { chain, key })
        },
    }
}

/// Reads the certificate chain of a server and the first of its private keys.
pub fn server_identity(tls: &TlsConfig) -> (identity: Result<ServerIdentity, TlsError>)
    requires
        server_key_present(*tls),
    ensures
        match identity {
            Ok(id) => {
                &&& server_pem_reads(*tls)
                &&& byte_strings(id.chain@) == pem_certificates(tls.cert@)->0
                &&& id.key@ == pem_pkcs8_keys(tls.key->0@)->0[0]
            },
            Err(e) => !server_pem_reads(*tls) && server_error(*tls, e),
        },
{
    let certs = read_certificates(&tls.cert);
    let keys = match &tls.key {
        None => None,
        Some(pem) => Some(read_pkcs8_keys(pem)),
    };
    identity_of(certs, keys)
}

/// What is made of the answer of rustls to a server's material.
pub fn server_config_built(built: Result<RustlsServerConfig, rustls::Error>) -> (config: Result<
    RustlsServerConfig,
    TlsError,
>)
    ensures
        config == match built {
            Ok(c) => Ok::<RustlsServerConfig, TlsError>(c),
            Err(e) => Err::<RustlsServerConfig, TlsError>(TlsError::Rustls(e)),
        },
{
    match built {
        Ok(c) => Ok(c),
        Err(e) => Err(TlsError::Rustls(e)),
    }
}

/// The TLS settings of a server. Whether rustls takes material that can be read rests
/// with the cryptography provider of the process.
pub fn load_rustls_server_config(tls: &TlsConfig) -> (config: Result<RustlsServerConfig, TlsError>)
    requires
        server_key_present(*tls),
    ensures
        server_outcome(*tls, config),
{
    match server_identity(tls) {
        Ok(id) => server_config_built(single_cert_server(id.chain, id.key)),
        Err(e) => Err(e),
    }
}

/// The settings of a QUIC server that presents what the TLS settings do: connections
/// end after a minute of silence, and are not kept alive from this side.
pub fn quinn_server_config(rustls_config: &RustlsServerConfig) -> (config: Result<
    QuinnServerConfig,
    TlsError,
>)
    ensures
        quic_outcome(*rustls_config, config),
{
    let crypto = match quic_crypto(rustls_config) {
        Ok(crypto) => crypto,
        Err(e) => return Err(TlsError::Cipher(e)),
    };
    match quic_transport(MAX_IDLE_SECS, None) {
        Ok(transport) => Ok(quic_server(crypto, transport)),
        Err(e) => Err(TlsError::IdleTimeout(e)),
    }
}

/// The settings of a QUIC server, out of TLS settings that may not have come about.
pub fn quic_config_of(loaded: Result<RustlsServerConfig, TlsError>) -> (config: Result<
    QuinnServerConfig,
    TlsError,
>)
    ensures
        quic_outcome_of(loaded, config),
{
    match loaded {
        Ok(rustls_config) => quinn_server_config(&rustls_config),
        Err(e) => Err(e),
    }
}

/// The settings of a QUIC server, from its PEM texts: [`load_rustls_server_config`] and
/// then [`quinn_server_config`].
pub fn load_tls_config(tls: &TlsConfig) -> (config: Result<QuinnServerConfig, TlsError>)
    requires
        server_key_present(*tls),
    ensures
        quic_server_outcome(*tls, config),
{
    let loaded = load_rustls_server_config(tls);
    assert(server_outcome(*tls, loaded));
    quic_config_of(loaded)
}

/// [`load_tls_config`] for any PEM texts: `None` where both can be read and there is
/// no private key.
pub fn try_load_tls_config(tls: &TlsConfig) -> (config: Option<Result<QuinnServerConfig, TlsError>>)
    ensures
        match config {
            None => !server_key_present(*tls),
            Some(c) => server_key_present(*tls) && quic_server_outcome(*tls, c),
        },
{
    if has_server_key(tls) {
        Some(load_tls_config(tls))
    } else {
        None
    }
}

/// The certificate that a client trusts, out of those that its PEM text gave: the first.
pub fn first_certificate(certs: Vec<Vec<u8>>) -> (der: Vec<u8>)
    requires
        certs@.len() > 0,
    ensures
        der == certs@[0],
{
    let mut certs = certs;
    certs.remove(0)
}

fn root_store(tls: &TlsConfig) -> (store: Result<rustls::RootCertStore, TlsError>)
    requires
        client_root_present(*tls),
    ensures
        match store {
            Ok(s) => client_anchor(*tls) is Some && store_anchors(s) == seq![client_anchor(*tls)->0],
            Err(e) => client_error(*tls, e),
        },
{
    match read_certificates(&tls.cert) {
        Err(_) => vstd::pervasive::unreached(),
        Ok(certs) => {
            let der = first_certificate(certs);
            let mut store = empty_store();
            match add_root(&mut store, der) {
                Ok(_) => {
                    assert(store_anchors(store) =~= seq![client_anchor(*tls)->0]);
                    Ok(store)
                },
                Err(e) => Err(TlsError::Rustls(e)),
            }
        },
    }
}

/// The settings of a QUIC client that trusts the first certificate and no other:
/// connections end after a minute of silence, which the client breaks every twenty
/// seconds.
pub fn client_tls_config(tls: &TlsConfig) -> (config: Result<QuinnClientConfig, TlsError>)
    requires
        client_root_present(*tls),
    ensures
        quic_client_outcome(*tls, config),
{
    let store = match root_store(tls) {
        Ok(store) => store,
        Err(e) => return Err(e),
    };
    let transport = match quic_transport(MAX_IDLE_SECS, Some(KEEP_ALIVE_SECS)) {
        Ok(transport) => transport,
        Err(e) => return Err(TlsError::IdleTimeout(e)),
    };
    match quic_client(store, transport) {
        Ok(config) => Ok(config),
        Err(e) => Err(TlsError::NoRoots(e)),
    }
}

/// The TLS settings of a client that trusts the first certificate and no other.
pub fn load_rustls_client_config(tls: &TlsConfig) -> (config: Result<RustlsClientConfig, TlsError>)
    requires
        client_root_present(*tls),
    ensures
        client_outcome(*tls, config),
{
    match root_store(tls) {
        Ok(store) => Ok(client_with_roots(store)),
        Err(e) => Err(e),
    }
}

/// A client with the server's certificate text trusts the certificate that the server
/// presents, which is the first of its chain.
pub proof fn lemma_client_trusts_server(server: TlsConfig, client: TlsConfig)
    requires
        server.cert@ == client.cert@,
        server_pem_reads(server),
        client_root_present(client),
    ensures
        client_anchor(client) == trust_anchor(server_presents(server)[0]),
{
}

/// The settings of a QUIC server that come of its PEM texts present these, ask for no
/// client's certificate and have the server's timers; and the errors that need neither
/// rustls nor QUIC come as they do for the TLS settings.
pub proof fn lemma_quic_server_outcome(tls: TlsConfig, config: Result<QuinnServerConfig, TlsError>)
    requires
        quic_server_outcome(tls, config),
    ensures
        match config {
            Ok(c) => {
                &&& server_pem_reads(tls)
                &&& quic_presented(c) == server_presents(tls)
                &&& !quic_client_auth_asked(c)
                &&& quic_server_timers(c) == (Some(60_000nat), None::<nat>)
            },
            Err(e) => if server_pem_reads(tls) {
                e is Rustls || e is Cipher
            } else {
                server_error(tls, e)
            },
        },
{
}

/// The first certificate alone decides what a client trusts: with the same first
/// certificate, and whatever follows it and whatever the keys are, two clients have the
/// same outcome. It is a refusal, or the same single anchor, without a certificate of
/// the client's own; and it is the same over QUIC.
pub proof fn lemma_first_certificate_decides(
    a: TlsConfig,
    b: TlsConfig,
    over_tls: Result<RustlsClientConfig, TlsError>,
    also_over_tls: Result<RustlsClientConfig, TlsError>,
    over_quic: Result<QuinnClientConfig, TlsError>,
)
    requires
        client_root_present(a),
        client_root_present(b),
        pem_certificates(a.cert@)->0[0] == pem_certificates(b.cert@)->0[0],
        client_outcome(a, over_tls),
        client_outcome(b, also_over_tls),
        quic_client_outcome(b, over_quic),
    ensures
        over_tls is Ok <==> client_anchor(a) is Some,
        over_tls is Ok <==> also_over_tls is Ok,
        over_tls is Ok <==> over_quic is Ok,
        over_tls matches Ok(c) ==> {
            &&& trusted(c).len() == 1
            &&& trusted(also_over_tls->Ok_0) == trusted(c)
            &&& quic_trusted(over_quic->Ok_0) == trusted(c)
            &&& !client_cert_offered(c)
            &&& !client_cert_offered(also_over_tls->Ok_0)
            &&& !quic_client_cert_offered(over_quic->Ok_0)
        },
{
}

/// A list of byte strings is that of its vectors, one for one and in order.
pub proof fn lemma_byte_strings(items: Seq<Vec<u8>>)
    ensures
        byte_strings(items).len() == items.len(),
        forall|i: int| 0 <= i < items.len() ==> #[trigger] byte_strings(items)[i] == items[i]@,
{
}

/// A server presents all of its certificates, in their order, and behind them the first
/// of its private keys and no other; and it asks its clients for no certificate. That
/// takes two PEM texts that can be read. Where rustls refuses, it refuses all of this
/// material and no part of it.
pub proof fn lemma_server_presents_its_chain(
    tls: TlsConfig,
    config: Result<RustlsServerConfig, TlsError>,
)
    requires
        server_outcome(tls, config),
    ensures
        config matches Ok(c) ==> {
            &&& pem_certificates(tls.cert@) is Some
            &&& tls.key is Some
            &&& pem_pkcs8_keys(tls.key->0@) is Some
            &&& presented(c).len() == pem_certificates(tls.cert@)->0.len() + 1
            &&& forall|i: int|
                0 <= i < pem_certificates(tls.cert@)->0.len() ==> #[trigger] presented(c)[i]
                    == pem_certificates(tls.cert@)->0[i]
            &&& presented(c).last() == pem_pkcs8_keys(tls.key->0@)->0[0]
            &&& !client_auth_asked(c)
        },
        config matches Err(TlsError::Rustls(cause)) ==> {
            &&& pem_certificates(tls.cert@) is Some
            &&& tls.key is Some
            &&& pem_pkcs8_keys(tls.key->0@) is Some
            &&& identity_refusal(
                pem_certificates(tls.cert@)->0,
                pem_pkcs8_keys(tls.key->0@)->0[0],
                cause,
            )
        },
{
}

/// The material of a server is refused before rustls sees it in three cases, looked at in
/// this order: its certificates cannot be read, there is no key text, or its keys cannot
/// be read. Only a key text that can be read and holds no key leads nowhere.
pub proof fn lemma_server_material_is_refused(
    tls: TlsConfig,
    config: Result<RustlsServerConfig, TlsError>,
)
    ensures
        server_key_present(tls) <==> (pem_certificates(tls.cert@) is Some && tls.key is Some
            && pem_pkcs8_keys(tls.key->0@) is Some ==> pem_pkcs8_keys(tls.key->0@)->0.len() > 0),
        server_outcome(tls, config) && pem_certificates(tls.cert@) is None ==> {
            &&& config matches Err(TlsError::Pem(cause))
            &&& certificates_refusal(tls.cert@, cause)
        },
        server_outcome(tls, config) && pem_certificates(tls.cert@) is Some && tls.key is None ==> {
            config matches Err(TlsError::NoKey)
        },
        server_outcome(tls, config) && pem_certificates(tls.cert@) is Some && tls.key is Some
            && pem_pkcs8_keys(tls.key->0@) is None ==> {
            &&& config matches Err(TlsError::Pem(cause))
            &&& keys_refusal(tls.key->0@, cause)
        },
        server_outcome(tls, config) && pem_certificates(tls.cert@) is Some && tls.key is Some
            && pem_pkcs8_keys(tls.key->0@) is Some ==> config is Ok || config->Err_0 is Rustls,
{
}

/// The settings of a QUIC server come of any TLS settings that QUIC can use, and of no
/// others. They present and ask for what these do; a connection ends after sixty
/// thousand milliseconds of silence, and the server does not break it.
pub proof fn lemma_quic_server_settings(
    rustls_config: RustlsServerConfig,
    config: Result<QuinnServerConfig, TlsError>,
)
    requires
        quic_outcome(rustls_config, config),
    ensures
        config is Ok <==> quic_capable(rustls_config),
        config matches Ok(c) ==> {
            &&& quic_presented(c) == presented(rustls_config)
            &&& quic_client_auth_asked(c) == client_auth_asked(rustls_config)
            &&& quic_server_timers(c).0 == Some(60_000nat)
            &&& quic_server_timers(c).1 is None
        },
        config is Err ==> {
            &&& config->Err_0 matches TlsError::Cipher(cause)
            &&& quic_refusal(rustls_config, cause)
        },
{
}

/// A QUIC server whose PEM texts are loaded presents all of its certificates, in their
/// order, and behind them the first of its keys; and TLS settings that could not be
/// loaded are its own failure.
pub proof fn lemma_quic_server_presents_its_chain(
    tls: TlsConfig,
    config: Result<QuinnServerConfig, TlsError>,
)
    requires
        quic_server_outcome(tls, config),
    ensures
        config matches Ok(c) ==> {
            &&& quic_presented(c).len() == pem_certificates(tls.cert@)->0.len() + 1
            &&& forall|i: int|
                0 <= i < pem_certificates(tls.cert@)->0.len() ==> #[trigger] quic_presented(c)[i]
                    == pem_certificates(tls.cert@)->0[i]
            &&& quic_presented(c).last() == pem_pkcs8_keys(tls.key->0@)->0[0]
            &&& !quic_client_auth_asked(c)
        },
        config is Err && !(config->Err_0 is Cipher) ==> server_outcome(
            tls,
            Err::<RustlsServerConfig, TlsError>(config->Err_0),
        ),
{
}

/// A client trusts the first certificate of its PEM text and nothing else, and offers
/// none of its own, over either transport. Over QUIC a connection ends after sixty
/// thousand milliseconds of silence, which the client breaks every twenty thousand. It is
/// refused only where that certificate cannot be an anchor.
pub proof fn lemma_client_trusts_the_first_certificate(
    tls: TlsConfig,
    over_tls: Result<RustlsClientConfig, TlsError>,
    over_quic: Result<QuinnClientConfig, TlsError>,
)
    requires
        client_outcome(tls, over_tls),
        quic_client_outcome(tls, over_quic),
    ensures
        client_root_present(tls) <==> pem_certificates(tls.cert@) is Some && pem_certificates(
            tls.cert@,
        )->0.len() > 0,
        ({
            let first = pem_certificates(tls.cert@)->0[0];
            &&& over_tls is Ok <==> trust_anchor(first) is Some
            &&& over_quic is Ok <==> trust_anchor(first) is Some
            &&& over_tls matches Ok(c) ==> {
                &&& trusted(c).len() == 1
                &&& trusted(c)[0] == trust_anchor(first)->0
                &&& !client_cert_offered(c)
            }
            &&& over_quic matches Ok(c) ==> {
                &&& quic_trusted(c).len() == 1
                &&& quic_trusted(c)[0] == trust_anchor(first)->0
                &&& !quic_client_cert_offered(c)
                &&& quic_client_timers(c).0 == Some(60_000nat)
                &&& quic_client_timers(c).1 == Some(20_000nat)
            }
            &&& over_tls is Err ==> over_tls->Err_0 is Rustls && root_refusal(
                first,
                over_tls->Err_0->Rustls_0,
            )
            &&& over_quic is Err ==> over_quic->Err_0 is Rustls && root_refusal(
                first,
                over_quic->Err_0->Rustls_0,
            )
        }),
{
}

/// TLS settings that could not be loaded make the same failure of the QUIC server's, and
/// settings that were loaded lead to what QUIC makes of them: success exactly where it
/// can use them.
pub proof fn lemma_quic_settings_follow(
    loaded: Result<RustlsServerConfig, TlsError>,
    config: Result<QuinnServerConfig, TlsError>,
)
    requires
        quic_outcome_of(loaded, config),
    ensures
        loaded matches Err(e) ==> config is Err && config->Err_0 == e,
        loaded matches Ok(r) ==> {
            &&& config is Ok <==> quic_capable(r)
            &&& config matches Ok(c) ==> quic_presented(c) == presented(r)
            &&& config is Err ==> config->Err_0 is Cipher
        },
{
}

} // verus!
