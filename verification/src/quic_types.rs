//! What is taken for granted of `quinn` and `rustls`.

use quinn::crypto::rustls::{NoInitialCipherSuite, QuicClientConfig};
use quinn::{IdleTimeout, TransportConfig, VarIntBoundsExceeded};
use rustls::crypto::CryptoProvider;
use rustls::RootCertStore;
use std::sync::Arc;
use std::time::Duration;
use vstd::prelude::*;

verus! {

/// `quinn::TransportConfig`.
#[verifier::external_type_specification]
#[verifier::external_body]
pub struct ExTransportConfig(TransportConfig);

/// `quinn::IdleTimeout`.
#[verifier::external_type_specification]
#[verifier::external_body]
pub struct ExIdleTimeout(IdleTimeout);

/// `quinn::VarIntBoundsExceeded`, the error of a number that is too large for the transport.
#[verifier::external_type_specification]
#[verifier::external_body]
pub struct ExVarIntBoundsExceeded(VarIntBoundsExceeded);

/// `rustls::RootCertStore`, the certificates that are trusted.
#[verifier::external_type_specification]
#[verifier::external_body]
pub struct ExRootCertStore(RootCertStore);

/// `rustls::crypto::CryptoProvider`, the cryptography that TLS is made of.
#[verifier::external_type_specification]
#[verifier::external_body]
pub struct ExCryptoProvider(CryptoProvider);

/// `rustls::ClientConfig`, the settings of TLS.
#[verifier::external_type_specification]
#[verifier::external_body]
pub struct ExTlsConfig(rustls::ClientConfig);

/// `quinn::crypto::rustls::QuicClientConfig`, the settings of TLS as QUIC uses them.
#[verifier::external_type_specification]
#[verifier::external_body]
pub struct ExQuicClientConfig(QuicClientConfig);

/// `quinn::crypto::rustls::NoInitialCipherSuite`, the error of TLS that does not suit QUIC.
#[verifier::external_type_specification]
#[verifier::external_body]
pub struct ExNoInitialCipherSuite(NoInitialCipherSuite);

/// `quinn::ClientConfig`, the settings of outgoing connections.
#[verifier::external_type_specification]
#[verifier::external_body]
pub struct ExClientConfig(quinn::ClientConfig);

/// Whether cryptography suits the default versions of TLS: some cipher suite is of one of them,
/// and each finds a group for its key exchange.
pub uninterp spec fn suits_tls(provider: CryptoProvider) -> bool;

/// Whether cryptography has the cipher suite that the first packets of QUIC need.
pub uninterp spec fn provides_initial_suite(provider: CryptoProvider) -> bool;

/// What TLS trusts to sign the certificates of servers, in order.
pub uninterp spec fn trusts(tls: rustls::ClientConfig) -> Seq<
    (Seq<u8>, Seq<u8>, Option<Seq<u8>>),
>;

/// Whether TLS has a certificate for servers that ask the client for one.
pub uninterp spec fn offers_certificate(tls: rustls::ClientConfig) -> bool;

/// The versions of TLS that are enabled, by their numbers on the wire.
pub uninterp spec fn enabled_versions(tls: rustls::ClientConfig) -> Set<u16>;

/// Whether all settings of TLS but its cryptography, what it trusts, its certificate and its
/// application protocols are those that it starts with: session resumption, early data, the
/// name of the server in the handshake, the log of keys and the like.
pub uninterp spec fn is_default_tls(tls: rustls::ClientConfig) -> bool;

/// The application protocols that TLS offers.
pub uninterp spec fn alpn_offered(tls: rustls::ClientConfig) -> Seq<Seq<u8>>;

/// The settings of TLS with other application protocols.
pub uninterp spec fn with_alpn(
    tls: rustls::ClientConfig,
    protocols: Seq<Seq<u8>>,
) -> rustls::ClientConfig;

/// The cryptography that TLS uses.
pub uninterp spec fn tls_crypto(tls: rustls::ClientConfig) -> CryptoProvider;

/// The settings of TLS that QUIC uses.
pub uninterp spec fn quic_tls(quic: QuicClientConfig) -> rustls::ClientConfig;

/// A missing cipher suite as its `Display` writes it.
pub uninterp spec fn no_suite_text(error: NoInitialCipherSuite) -> Seq<char>;

/// The settings of TLS that outgoing connections use.
pub uninterp spec fn client_tls(config: quinn::ClientConfig) -> rustls::ClientConfig;

/// The settings of the transport that outgoing connections use.
pub uninterp spec fn client_transport(config: quinn::ClientConfig) -> TransportConfig;

/// The version of QUIC that outgoing connections use.
pub uninterp spec fn client_version(config: quinn::ClientConfig) -> u32;

/// An idle timeout in milliseconds.
pub uninterp spec fn idle_timeout_millis(timeout: IdleTimeout) -> nat;

/// The idle timeout of a transport in milliseconds, `None` where it has none.
pub uninterp spec fn max_idle_millis(config: TransportConfig) -> Option<nat>;

/// The keep-alive interval of a transport in whole milliseconds, `None` where it sends no
/// keep-alives.
pub uninterp spec fn keep_alive_millis(config: TransportConfig) -> Option<nat>;

/// Whether all settings of a transport are those that it starts with.
pub uninterp spec fn is_default_transport(config: TransportConfig) -> bool;

/// The settings of a transport with another idle timeout.
pub uninterp spec fn with_max_idle(config: TransportConfig, millis: nat) -> TransportConfig;

/// The settings of a transport with another keep-alive interval.
pub uninterp spec fn with_keep_alive(config: TransportConfig, millis: nat) -> TransportConfig;

/// What a certificate (in DER) is trusted for: its subject, its public key and its name
/// constraints. `None` where it cannot be parsed.
pub uninterp spec fn trust_anchor(der: Seq<u8>) -> Option<(Seq<u8>, Seq<u8>, Option<Seq<u8>>)>;

/// What a store trusts, in order.
pub uninterp spec fn trusted(store: RootCertStore) -> Seq<(Seq<u8>, Seq<u8>, Option<Seq<u8>>)>;

/// The versions of TLS that are enabled by default: TLS 1.2 and TLS 1.3.
pub open spec fn default_versions() -> Set<u16> {
    set![0x0303u16, 0x0304u16]
}

/// The bytes of each string.
pub open spec fn byte_strings(strings: Seq<Vec<u8>>) -> Seq<Seq<u8>> {
    strings.map_values(|s: Vec<u8>| s@)
}

/// `TransportConfig::default`: an idle timeout of 30 seconds and no keep-alives.
pub assume_specification[ <TransportConfig as core::default::Default>::default ]() -> (config:
    TransportConfig)
    ensures
        is_default_transport(config),
        max_idle_millis(config) == Some(30_000nat),
        keep_alive_millis(config) == None::<nat>,
;

/// `IdleTimeout::try_from` on a number of whole seconds: the transport counts milliseconds and
/// takes numbers below 2^62.
#[verifier::external_body]
pub(crate) fn idle_timeout(secs: u64) -> (r: Result<IdleTimeout, VarIntBoundsExceeded>)
    ensures
        r is Ok <==> secs * 1000 < 0x4000_0000_0000_0000,
        r matches Ok(timeout) ==> idle_timeout_millis(timeout) == secs * 1000,
{
    Duration::from_secs(secs).try_into()
}

/// `TransportConfig::max_idle_timeout` on a timeout: it replaces the one before and leaves the
/// other settings alone, keep-alives among them.
#[verifier::external_body]
pub(crate) fn set_max_idle_timeout(config: &mut TransportConfig, timeout: IdleTimeout)
    ensures
        *final(config) == with_max_idle(*old(config), idle_timeout_millis(timeout)),
        max_idle_millis(*final(config)) == Some(idle_timeout_millis(timeout)),
        keep_alive_millis(*final(config)) == keep_alive_millis(*old(config)),
{
    config.max_idle_timeout(Some(timeout));
}

/// `TransportConfig::keep_alive_interval` on a number of whole seconds: it replaces the
/// interval before and leaves the other settings alone, the idle timeout among them.
#[verifier::external_body]
pub(crate) fn set_keep_alive_interval(config: &mut TransportConfig, secs: u64)
    ensures
        *final(config) == with_keep_alive(*old(config), (secs * 1000) as nat),
        keep_alive_millis(*final(config)) == Some((secs * 1000) as nat),
        max_idle_millis(*final(config)) == max_idle_millis(*old(config)),
{
    config.keep_alive_interval(Some(Duration::from_secs(secs)));
}

/// `rustls::ClientConfig::builder_with_provider`, then on the builders that follow from one
/// another `with_safe_default_protocol_versions`, `with_root_certificates` and
/// `with_no_client_auth`. The second fails, here `None`, where the cryptography does not suit
/// the versions. Else servers are verified against the store, without revocation lists, the
/// client has no certificate, no application protocol is offered yet, the cryptography is the
/// given one, TLS 1.2 and TLS 1.3 are enabled, and the other settings are those that TLS starts
/// with.
#[verifier::external_body]
pub(crate) fn tls_settings(provider: Arc<CryptoProvider>, store: RootCertStore) -> (r: Option<
    rustls::ClientConfig,
>)
    ensures
        r is Some <==> suits_tls(*provider),
        r matches Some(tls) ==> trusts(tls) == trusted(store),
        r matches Some(tls) ==> !offers_certificate(tls),
        r matches Some(tls) ==> alpn_offered(tls).len() == 0,
        r matches Some(tls) ==> tls_crypto(tls) == *provider,
        r matches Some(tls) ==> enabled_versions(tls) == default_versions(),
        r matches Some(tls) ==> is_default_tls(tls),
{
    let builder = rustls::ClientConfig::builder_with_provider(provider);
    let versioned = builder.with_safe_default_protocol_versions().ok()?;
    Some(versioned.with_root_certificates(store).with_no_client_auth())
}

/// `rustls::ClientConfig::alpn_protocols`, the field: the protocols are replaced. They have no
/// part in the cryptography, in what is trusted, in the client's certificate, in the versions
/// or in the other settings.
#[verifier::external_body]
pub(crate) fn set_alpn_protocols(tls: &mut rustls::ClientConfig, protocols: Vec<Vec<u8>>)
    ensures
        *final(tls) == with_alpn(*old(tls), byte_strings(protocols@)),
        alpn_offered(*final(tls)) == byte_strings(protocols@),
        tls_crypto(*final(tls)) == tls_crypto(*old(tls)),
        trusts(*final(tls)) == trusts(*old(tls)),
        offers_certificate(*final(tls)) == offers_certificate(*old(tls)),
        enabled_versions(*final(tls)) == enabled_versions(*old(tls)),
        is_default_tls(*final(tls)) == is_default_tls(*old(tls)),
{
    tls.alpn_protocols = protocols;
}

/// `QuicClientConfig::try_from` on settings of TLS: it takes them as they are where they have
/// the cipher suite that the first packets need, and fails in one way only.
#[verifier::external_body]
pub(crate) fn quic_client(tls: rustls::ClientConfig) -> (r: Result<QuicClientConfig, NoInitialCipherSuite>)
    ensures
        r is Ok <==> provides_initial_suite(tls_crypto(tls)),
        r matches Ok(quic) ==> quic_tls(quic) == tls,
        r matches Err(e) ==> no_suite_text(e) == "no initial cipher suite found"@,
{
    QuicClientConfig::try_from(tls)
}

/// `<NoInitialCipherSuite as Display>`, through `to_string`.
#[verifier::external_body]
pub(crate) fn show_no_suite(error: &NoInitialCipherSuite) -> (text: String)
    ensures
        text@ == no_suite_text(*error),
{
    error.to_string()
}

/// `quinn::ClientConfig::new`: outgoing connections use the settings of TLS and version 1 of
/// QUIC. Connection identifiers are random, and address tokens are kept in memory; of those
/// the contract says nothing.
#[verifier::external_body]
pub(crate) fn client_config(quic: QuicClientConfig) -> (config: quinn::ClientConfig)
    ensures
        client_tls(config) == quic_tls(quic),
        client_version(config) == 1,
{
    quinn::ClientConfig::new(Arc::new(quic))
}

/// `quinn::ClientConfig::transport_config`: outgoing connections use the settings of the
/// transport, and TLS and QUIC as before.
#[verifier::external_body]
pub(crate) fn set_transport(config: &mut quinn::ClientConfig, transport: TransportConfig)
    ensures
        client_transport(*final(config)) == transport,
        client_tls(*final(config)) == client_tls(*old(config)),
        client_version(*final(config)) == client_version(*old(config)),
{
    config.transport_config(Arc::new(transport));
}

/// `RootCertStore::empty`: nothing is trusted.
pub assume_specification[ RootCertStore::empty ]() -> (store: RootCertStore)
    ensures
        trusted(store).len() == 0,
;

/// `RootCertStore::add` on a certificate in DER: one that can be parsed is trusted from then
/// on, one that cannot is an error, here `None`, and changes nothing.
#[verifier::external_body]
pub(crate) fn add_root(store: &mut RootCertStore, der: &[u8]) -> (r: Option<()>)
    ensures
        match trust_anchor(der@) {
            Some(anchor) => r is Some && trusted(*final(store)) == trusted(*old(store)).push(anchor),
            None => r is None && trusted(*final(store)) == trusted(*old(store)),
        },
{
    store.add(rustls::pki_types::CertificateDer::from(der)).ok()
}

} // verus!
