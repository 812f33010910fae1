use nozomi_quic_client::query::query_text;
use nozomi_quic_client::quic::{
    alpn_protocols, connection_config, h3_tls_config, outgoing_config, quic_client_config,
    root_store, tls_config, transport_config,
};
use nozomi_quic_client::text::{decimal_text, holds_char};
use nozomi_quic_client::{
    ConnectFailure, Error, NozomiConfig, NozomiEndpoint, NozomiQuicClient, SendFailure,
    SetupFailure,
};
use rustls::crypto::{aws_lc_rs, CryptoProvider};
use std::sync::Arc;

fn connection_error(config: NozomiConfig) -> String {
    match NozomiQuicClient::new(config) {
        Err(Error::Connection(msg)) => msg,
        Err(other) => panic!("unexpected: {:?}", other),
        Ok(_) => panic!("unexpected client"),
    }
}

#[test]
fn endpoint_hosts() {
    assert_eq!(NozomiEndpoint::Auto.host(), "edge.nozomi.temporal.xyz");
    assert_eq!(NozomiEndpoint::Pittsburgh.host(), "pit1.nozomi.temporal.xyz");
    assert_eq!(NozomiEndpoint::Tokyo.host(), "tyo1.nozomi.temporal.xyz");
    assert_eq!(NozomiEndpoint::Singapore.host(), "sgp1.nozomi.temporal.xyz");
    assert_eq!(NozomiEndpoint::Newark.host(), "ewr1.nozomi.temporal.xyz");
    assert_eq!(NozomiEndpoint::Amsterdam.host(), "ams1.nozomi.temporal.xyz");
    assert_eq!(NozomiEndpoint::Frankfurt.host(), "fra2.nozomi.temporal.xyz");
    assert_eq!(NozomiEndpoint::Ashburn.host(), "ash1.nozomi.temporal.xyz");
    assert_eq!(NozomiEndpoint::LosAngeles.host(), "lax1.nozomi.temporal.xyz");
    assert_eq!(NozomiEndpoint::London.host(), "lon1.nozomi.temporal.xyz");
}

#[test]
fn all_direct_endpoints() {
    let all = NozomiEndpoint::ALL_DIRECT;
    assert_eq!(all.len(), 9);
    assert!(!all.contains(&NozomiEndpoint::Auto));
    for (i, a) in all.iter().enumerate() {
        for b in &all[i + 1..] {
            assert_ne!(a, b);
            assert_ne!(a.host(), b.host());
        }
    }
}

#[test]
fn config_defaults() {
    let config = NozomiConfig::new("pit1.nozomi.temporal.xyz", "key");
    assert_eq!(config.host, "pit1.nozomi.temporal.xyz");
    assert_eq!(config.port, 443);
    assert_eq!(config.api_key, "key");
}

#[test]
fn config_from_owned_strings() {
    let config = NozomiConfig::new(String::from("h"), String::from("k"));
    assert_eq!(config.host, "h");
    assert_eq!(config.api_key, "k");
}

#[test]
fn config_from_endpoint() {
    let config = NozomiConfig::from_endpoint(NozomiEndpoint::London, "key");
    assert_eq!(config.host, "lon1.nozomi.temporal.xyz");
    assert_eq!(config.port, 443);
    assert_eq!(config.api_key, "key");
}

#[test]
fn every_endpoint_makes_a_client() {
    assert!(NozomiQuicClient::new(NozomiConfig::from_endpoint(NozomiEndpoint::Auto, "k")).is_ok());
    for &endpoint in NozomiEndpoint::ALL_DIRECT {
        let client = NozomiQuicClient::new(NozomiConfig::from_endpoint(endpoint, "k")).unwrap();
        assert!(!client.is_connected(true));
    }
}

#[test]
fn a_key_that_is_no_query_is_rejected() {
    assert_eq!(
        connection_error(NozomiConfig::new("h", "a b")),
        "invalid batch URI: invalid uri character"
    );
    assert_eq!(
        connection_error(NozomiConfig::new("h", "a<b")),
        "invalid batch URI: invalid uri character"
    );
}

#[test]
fn a_key_is_escaped_from_its_first_hash_on() {
    assert_eq!(query_text("ab#c d"), "ab%23c%20d");
    assert_eq!(query_text("#"), "%23");
    assert_eq!(query_text("ab##"), "ab%23%23");
    assert_eq!(query_text("a%20#%20"), "a%20%23%2520");
    assert_eq!(query_text("#\u{e9}&=+/?~"), "%23\u{e9}&=+/?~");
    assert_eq!(query_text("#\"<>\n\u{7f}"), "%23%22%3C%3E%0A%7F");
}

#[test]
fn a_key_without_a_hash_is_not_escaped() {
    for key in ["", "key", "a%23", "\u{e9}%", "a b"] {
        assert_eq!(query_text(key), key);
    }
}

#[test]
fn a_key_before_its_hash_must_be_a_query() {
    for key in ["a b#", "<#c", "a b#c d"] {
        assert_eq!(
            connection_error(NozomiConfig::new("h", key)),
            "invalid batch URI: invalid uri character"
        );
    }
    let long = format!("a b{}", "#".repeat(30_000));
    assert_eq!(
        connection_error(NozomiConfig::new("h", long)),
        "invalid batch URI: invalid uri character"
    );
}

#[test]
fn a_key_with_a_hash_may_be_as_long_as_a_uri() {
    let most = format!("a{}", "#".repeat((65_534 - 18) / 3));
    assert!(NozomiQuicClient::new(NozomiConfig::new("h", most.clone())).is_ok());
    assert_eq!(
        connection_error(NozomiConfig::new("h", format!("{}##", most))),
        "invalid batch URI: uri too long"
    );
    assert_eq!(
        connection_error(NozomiConfig::new("h", format!("#{}", "a".repeat(70_000)))),
        "invalid batch URI: uri too long"
    );
}

#[test]
fn a_text_holds_its_characters() {
    assert!(holds_char("a\u{e9}#b", '#'));
    assert!(holds_char("a\u{e9}#b", '\u{e9}'));
    assert!(!holds_char("a\u{e9}b", '#'));
    assert!(!holds_char("", '#'));
}

#[test]
fn a_key_may_be_as_long_as_a_uri() {
    assert!(NozomiQuicClient::new(NozomiConfig::new("h", "a".repeat(65_534 - 17))).is_ok());
    assert_eq!(
        connection_error(NozomiConfig::new("h", "a".repeat(65_534 - 16))),
        "invalid batch URI: uri too long"
    );
}

#[test]
fn a_long_key_is_too_long_in_bytes() {
    assert_eq!(
        connection_error(NozomiConfig::new("h", "\u{e9}".repeat(40_000))),
        "invalid batch URI: uri too long"
    );
}

#[test]
fn a_host_with_control_characters_is_rejected() {
    assert_eq!(
        connection_error(NozomiConfig::new("a\nb", "k")),
        "invalid host header: failed to parse header value"
    );
    assert_eq!(
        connection_error(NozomiConfig::new("a\u{7f}b", "k")),
        "invalid host header: failed to parse header value"
    );
}

#[test]
fn the_key_is_tested_before_the_host() {
    assert_eq!(
        connection_error(NozomiConfig::new("a\nb", "a b")),
        "invalid batch URI: invalid uri character"
    );
}

#[test]
fn error_texts() {
    assert_eq!(Error::Connection("x".into()).to_string(), "connection: x");
    assert_eq!(Error::Request("x".into()).to_string(), "request: x");
    assert_eq!(Error::NotConnected.to_string(), "not connected");
    assert_eq!(Error::Batch("x".into()).to_string(), "batch: x");
}

#[test]
fn failure_texts() {
    let text = |e: Error| e.to_string();
    assert_eq!(
        text(SetupFailure::TlsConfig("x".into()).into_error()),
        "connection: QUIC TLS config: x"
    );
    assert_eq!(
        text(SetupFailure::EndpointBind("x".into()).into_error()),
        "connection: endpoint bind: x"
    );
    assert_eq!(
        text(ConnectFailure::QuicConnect("x".into()).into_error()),
        "connection: QUIC connect: x"
    );
    assert_eq!(
        text(ConnectFailure::QuicHandshake("x".into()).into_error()),
        "connection: QUIC handshake: x"
    );
    assert_eq!(
        text(ConnectFailure::H3Handshake("x".into()).into_error()),
        "connection: H3 handshake: x"
    );
    assert_eq!(
        text(SendFailure::Headers("x".into()).into_error()),
        "request: send headers: x"
    );
    assert_eq!(
        text(SendFailure::Body("x".into()).into_error()),
        "request: send body: x"
    );
    assert_eq!(
        text(SendFailure::Finish("x".into()).into_error()),
        "request: finish stream: x"
    );
}

#[test]
fn numbers_in_decimal() {
    assert_eq!(decimal_text(0), "0");
    assert_eq!(decimal_text(9), "9");
    assert_eq!(decimal_text(10), "10");
    assert_eq!(decimal_text(1_234_567_890), "1234567890");
    assert_eq!(decimal_text(u128::MAX), u128::MAX.to_string());
}

#[test]
fn transport_settings() {
    let shown = format!("{:?}", transport_config());
    assert!(shown.contains("max_idle_timeout: Some(120000)"), "{}", shown);
    assert!(shown.contains("keep_alive_interval: Some(15s)"), "{}", shown);
}

#[test]
fn only_h3_is_offered() {
    assert_eq!(alpn_protocols(), vec![b"h3".to_vec()]);
    let config = tls(aws_lc_rs::default_provider());
    assert!(config.alpn_protocols.is_empty());
    assert_eq!(h3_tls_config(config).alpn_protocols, vec![b"h3".to_vec()]);
}

/// A certificate in DER that holds a subject and a public key, and little else.
fn certificate(subject: u8, key: u8) -> Vec<u8> {
    vec![
        0x30, 0x1e, 0x30, 0x17, 0xa0, 0x03, 0x02, 0x01, 0x02, 0x02, 0x01, 0x01, 0x30, 0x00, 0x30,
        0x00, 0x30, 0x00, 0x30, 0x03, 0x02, 0x01, subject, 0x30, 0x02, 0x05, key, 0x30, 0x00, 0x03,
        0x01, 0x00,
    ]
}

#[test]
fn certificates_that_can_be_parsed_are_trusted() {
    let certs = vec![vec![1, 2, 3], certificate(7, 0), vec![], certificate(8, 0)];
    let store = root_store(&certs);
    let subjects: Vec<Vec<u8>> = store
        .roots
        .iter()
        .map(|anchor| anchor.subject.as_ref().to_vec())
        .collect();
    assert_eq!(subjects, vec![vec![2, 1, 7], vec![2, 1, 8]]);
    assert!(root_store(&[]).is_empty());
}

fn tls(provider: CryptoProvider) -> rustls::ClientConfig {
    tls_config(Arc::new(provider), &[certificate(7, 0)]).unwrap()
}

#[test]
fn tls_trusts_the_certificates_and_has_none_of_its_own() {
    let certs = [certificate(7, 0), vec![1, 2, 3], certificate(8, 0)];
    let provider = Arc::new(aws_lc_rs::default_provider());
    let config = tls_config(provider.clone(), &certs).unwrap();
    let shown = format!("{:?}", config);
    assert!(shown.contains("(2 roots)"), "{}", shown);
    assert!(!config.client_auth_cert_resolver.has_certs());
    assert!(config.alpn_protocols.is_empty());
    assert!(Arc::ptr_eq(config.crypto_provider(), &provider));
    assert!(shown.contains("versions: [TLSv1_2, TLSv1_3]"), "{}", shown);
    assert!(config.enable_sni);
    assert!(!config.enable_early_data);
    assert!(config.max_fragment_size.is_none());

    let h3 = h3_tls_config(config);
    assert!(format!("{:?}", h3).contains("(2 roots)"));
    assert!(!h3.client_auth_cert_resolver.has_certs());

    let shown = format!("{:?}", tls_config(provider, &[]).unwrap());
    assert!(shown.contains("(0 roots)"), "{}", shown);
}

#[test]
fn cryptography_that_does_not_suit_tls_is_rejected() {
    let mut no_suites = aws_lc_rs::default_provider();
    no_suites.cipher_suites.clear();
    assert!(tls_config(Arc::new(no_suites.clone()), &[]).is_none());
    assert!(connection_config(Arc::new(no_suites), &[]).is_none());
    let mut no_groups = aws_lc_rs::default_provider();
    no_groups.kx_groups.clear();
    assert!(tls_config(Arc::new(no_groups.clone()), &[]).is_none());
    assert!(connection_config(Arc::new(no_groups), &[]).is_none());
}

fn provider_without_initial_suite() -> CryptoProvider {
    let mut provider = aws_lc_rs::default_provider();
    provider
        .cipher_suites
        .retain(|suite| suite.suite() != rustls::CipherSuite::TLS13_AES_128_GCM_SHA256);
    provider
}

#[test]
fn outgoing_connections_have_the_transport_settings() {
    let provider = Arc::new(aws_lc_rs::default_provider());
    let certs = [certificate(7, 0)];
    let configs = [
        quic_client_config(tls(aws_lc_rs::default_provider())).unwrap(),
        connection_config(provider, &certs).unwrap().unwrap(),
    ];
    for config in configs {
        let shown = format!("{:?}", config);
        assert!(shown.contains("version: 1"), "{}", shown);
        assert!(shown.contains("max_idle_timeout: Some(120000)"), "{}", shown);
        assert!(shown.contains("keep_alive_interval: Some(15s)"), "{}", shown);
    }
}

#[test]
fn tls_without_the_initial_suite_is_rejected() {
    match quic_client_config(tls(provider_without_initial_suite())) {
        Err(Error::Connection(msg)) => {
            assert_eq!(msg, "QUIC TLS config: no initial cipher suite found")
        }
        _ => panic!("unexpected"),
    }
    let provider = Arc::new(provider_without_initial_suite());
    match connection_config(provider, &[certificate(7, 0)]) {
        Some(Err(Error::Connection(msg))) => {
            assert_eq!(msg, "QUIC TLS config: no initial cipher suite found")
        }
        _ => panic!("unexpected"),
    }
}

#[test]
fn outgoing_settings_follow_the_settings_of_tls() {
    let good = quinn::crypto::rustls::QuicClientConfig::try_from(tls(aws_lc_rs::default_provider()));
    assert!(outgoing_config(good).is_ok());
    let bad =
        quinn::crypto::rustls::QuicClientConfig::try_from(tls(provider_without_initial_suite()));
    assert_eq!(
        outgoing_config(bad).unwrap_err().to_string(),
        "connection: QUIC TLS config: no initial cipher suite found"
    );
}
