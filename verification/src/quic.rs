//! The settings of the QUIC transport and of TLS, and the certificates that are trusted.

use crate::error::{Error, ErrorModel, SetupFailure};
use crate::laws::trust::law_every_certificate_is_trusted;
use crate::quic_types::{
    add_root, alpn_offered, byte_strings, client_config, client_tls, client_transport,
    client_version, default_versions, enabled_versions, idle_timeout, is_default_tls,
    is_default_transport, keep_alive_millis, max_idle_millis, no_suite_text, offers_certificate,
    provides_initial_suite, quic_client, quic_tls, set_alpn_protocols, set_keep_alive_interval,
    set_max_idle_timeout, set_transport, show_no_suite, suits_tls, tls_crypto, tls_settings,
    trust_anchor, trusted, trusts, with_alpn, with_keep_alive, with_max_idle,
};
use quinn::crypto::rustls::{NoInitialCipherSuite, QuicClientConfig};
use quinn::TransportConfig;
use rustls::crypto::CryptoProvider;
use rustls::RootCertStore;
use std::sync::Arc;
use vstd::prelude::*;

verus! {

/// The inactivity after which a connection times out, in seconds.
pub const MAX_IDLE_TIMEOUT_SECS: u64 = 120;

/// The inactivity after which a keep-alive is sent, in seconds.
pub const KEEP_ALIVE_INTERVAL_SECS: u64 = 15;

/// The settings of the QUIC transport.
pub fn transport_config() -> (config: TransportConfig)
    ensures
        transport_is_set(config),
{
    let mut config: TransportConfig = TransportConfig::default();
    set_max_idle_timeout(&mut config, idle_timeout(MAX_IDLE_TIMEOUT_SECS).unwrap());
    set_keep_alive_interval(&mut config, KEEP_ALIVE_INTERVAL_SECS);
    config
}

/// The application protocols that are offered: `h3` alone.
pub open spec fn h3_only() -> Seq<Seq<u8>> {
    seq![seq![104u8, 51u8]]
}

/// The application protocols that are offered.
pub fn alpn_protocols() -> (protocols: Vec<Vec<u8>>)
    ensures
        byte_strings(protocols@) == h3_only(),
{
    let h3: Vec<u8> = vec![104, 51];
    assert(h3@ == seq![104u8, 51u8]);
    let protocols: Vec<Vec<u8>> = vec![h3];
    assert(byte_strings(protocols@) =~= h3_only());
    protocols
}

/// Whether the transport has the settings of this client: those that it starts with, but for
/// the idle timeout and the keep-alives.
pub open spec fn transport_is_set(transport: TransportConfig) -> bool {
    &&& exists|start: TransportConfig| #[trigger]
        is_default_transport(start) && transport == with_keep_alive(
            with_max_idle(start, (MAX_IDLE_TIMEOUT_SECS * 1000) as nat),
            (KEEP_ALIVE_INTERVAL_SECS * 1000) as nat,
        )
    &&& max_idle_millis(transport) == Some((MAX_IDLE_TIMEOUT_SECS * 1000) as nat)
    &&& keep_alive_millis(transport) == Some((KEEP_ALIVE_INTERVAL_SECS * 1000) as nat)
}

/// The settings of TLS that offer H3.
pub fn h3_tls_config(tls: rustls::ClientConfig) -> (h3: rustls::ClientConfig)
    ensures
        h3 == with_alpn(tls, h3_only()),
        alpn_offered(h3) == h3_only(),
        tls_crypto(h3) == tls_crypto(tls),
        trusts(h3) == trusts(tls),
        offers_certificate(h3) == offers_certificate(tls),
        enabled_versions(h3) == enabled_versions(tls),
        is_default_tls(h3) == is_default_tls(tls),
{
    let mut h3: rustls::ClientConfig = tls;
    set_alpn_protocols(&mut h3, alpn_protocols());
    h3
}

/// Goes on after QUIC has taken the settings of TLS, or has not: the settings of outgoing
/// connections.
pub fn outgoing_config(quic: Result<QuicClientConfig, NoInitialCipherSuite>) -> (r: Result<
    quinn::ClientConfig,
    Error,
>)
    ensures
        match r {
            Ok(config) => quic matches Ok(q) && client_tls(config) == quic_tls(q)
                && client_version(config) == 1 && transport_is_set(client_transport(config)),
            Err(error) => quic matches Err(e) && error@ == ErrorModel::Connection(
                "QUIC TLS config: "@ + no_suite_text(e),
            ),
        },
{
    match quic {
        Ok(quic) => {
            let mut config: quinn::ClientConfig = client_config(quic);
            set_transport(&mut config, transport_config());
            Ok(config)
        },
        Err(e) => Err(SetupFailure::TlsConfig(show_no_suite(&e)).into_error()),
    }
}

/// The settings of outgoing connections, from those of TLS: H3 is the protocol that is
/// offered, servers are trusted as before, and the transport has its timeouts.
pub fn quic_client_config(tls: rustls::ClientConfig) -> (r: Result<quinn::ClientConfig, Error>)
    ensures
        match r {
            Ok(config) => {
                &&& provides_initial_suite(tls_crypto(tls))
                &&& client_tls(config) == with_alpn(tls, h3_only())
                &&& alpn_offered(client_tls(config)) == h3_only()
                &&& trusts(client_tls(config)) == trusts(tls)
                &&& offers_certificate(client_tls(config)) == offers_certificate(tls)
                &&& tls_crypto(client_tls(config)) == tls_crypto(tls)
                &&& enabled_versions(client_tls(config)) == enabled_versions(tls)
                &&& is_default_tls(client_tls(config)) == is_default_tls(tls)
                &&& client_version(config) == 1
                &&& transport_is_set(client_transport(config))
            },
            Err(error) => {
                &&& !provides_initial_suite(tls_crypto(tls))
                &&& error@ == ErrorModel::Connection(
                    "QUIC TLS config: "@ + "no initial cipher suite found"@,
                )
            },
        },
{
    outgoing_config(quic_client(h3_tls_config(tls)))
}

/// What a list of certificates is trusted for: those that cannot be parsed are passed over.
pub open spec fn trust_anchors(certs: Seq<Vec<u8>>) -> Seq<
    (Seq<u8>, Seq<u8>, Option<Seq<u8>>),
>
    decreases certs.len(),
{
    if certs.len() == 0 {
        Seq::empty()
    } else {
        match trust_anchor(certs.last()@) {
            Some(anchor) => trust_anchors(certs.drop_last()).push(anchor),
            None => trust_anchors(certs.drop_last()),
        }
    }
}

/// Trusts each of the certificates (in DER) that can be parsed.
pub fn root_store(certs: &[Vec<u8>]) -> (store: RootCertStore)
    ensures
        trusted(store) == trust_anchors(certs@),
        forall|i: int|
            0 <= i < certs@.len() ==> (trust_anchor((#[trigger] certs@[i])@) matches Some(anchor)
                ==> trusted(store).contains(anchor)),
{
    let mut store: RootCertStore = RootCertStore::empty();
    let mut i: usize = 0;
    while i < certs.len()
        invariant
            i <= certs@.len(),
            trusted(store) == trust_anchors(certs@.take(i as int)),
        decreases certs@.len() - i,
    {
        assert(certs@.take(i + 1).drop_last() == certs@.take(i as int));
        let _ = add_root(&mut store, certs[i].as_slice());
        i = i + 1;
    }
    assert(certs@.take(i as int) == certs@);
    assert forall|k: int| 0 <= k < certs@.len() implies (trust_anchor(
        (#[trigger] certs@[k])@,
    ) matches Some(anchor) ==> trusted(store).contains(anchor)) by {
        law_every_certificate_is_trusted(certs@, k);
    }
    store
}

/// The settings of TLS: servers are verified against the certificates (in DER) that can be
/// parsed, the client has no certificate of its own, and the rest is as TLS starts with. `None`
/// where the cryptography does not suit TLS.
pub fn tls_config(provider: Arc<CryptoProvider>, certs: &[Vec<u8>]) -> (r: Option<
    rustls::ClientConfig,
>)
    ensures
        match r {
            Some(tls) => {
                &&& suits_tls(*provider)
                &&& trusts(tls) == trust_anchors(certs@)
                &&& !offers_certificate(tls)
                &&& alpn_offered(tls).len() == 0
                &&& tls_crypto(tls) == *provider
                &&& enabled_versions(tls) == default_versions()
                &&& is_default_tls(tls)
            },
            None => !suits_tls(*provider),
        },
{
    tls_settings(provider, root_store(certs))
}

/// The settings of outgoing connections, from the cryptography and the certificates (in DER)
/// that are trusted. `None` where the cryptography does not suit TLS.
pub fn connection_config(provider: Arc<CryptoProvider>, certs: &[Vec<u8>]) -> (r: Option<
    Result<quinn::ClientConfig, Error>,
>)
    ensures
        match r {
            Some(Ok(config)) => {
                &&& suits_tls(*provider)
                &&& provides_initial_suite(*provider)
                &&& trusts(client_tls(config)) == trust_anchors(certs@)
                &&& !offers_certificate(client_tls(config))
                &&& alpn_offered(client_tls(config)) == h3_only()
                &&& tls_crypto(client_tls(config)) == *provider
                &&& enabled_versions(client_tls(config)) == default_versions()
                &&& is_default_tls(client_tls(config))
                &&& client_version(config) == 1
                &&& transport_is_set(client_transport(config))
            },
            Some(Err(error)) => {
                &&& suits_tls(*provider)
                &&& !provides_initial_suite(*provider)
                &&& error@ == ErrorModel::Connection(
                    "QUIC TLS config: "@ + "no initial cipher suite found"@,
                )
            },
            None => !suits_tls(*provider),
        },
{
    match tls_config(provider, certs) {
        Some(tls) => Some(quic_client_config(tls)),
        None => None,
    }
}

} // verus!
