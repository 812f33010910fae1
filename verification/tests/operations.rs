use bytes::Bytes;
use http::{Method, Request};
use nozomi_quic_client::{
    Address, Attempt, ConnectFailure, Error, Goal, NozomiConfig, NozomiQuicClient, SendFailure,
    Step,
};

const HERE: Address = Address::V4 {
    octets: [192, 0, 2, 1],
    port: 443,
};
const THERE: Address = Address::V6 {
    segments: [0x2001, 0xdb8, 0, 0, 0, 0, 0, 1],
    port: 443,
    flow_info: 0,
    scope_id: 0,
};

fn client() -> NozomiQuicClient {
    NozomiQuicClient::new(NozomiConfig::new("pit1.nozomi.temporal.xyz", "key")).unwrap()
}

fn warm_client() -> NozomiQuicClient {
    let mut client = client();
    let goal = resolve(client.warmup());
    let (addr, goal) = connect(client.resolved(goal, Ok(vec![HERE, THERE])));
    assert_eq!(addr, HERE);
    done(client.connection_made(goal, Ok(()))).unwrap();
    assert!(client.is_connected(true));
    client
}

fn resolve(step: Step) -> Goal {
    match step {
        Step::Resolve { key, goal } => {
            assert_eq!(key, "pit1.nozomi.temporal.xyz:443");
            goal
        }
        _ => panic!("not a lookup"),
    }
}

fn connect(step: Step) -> (Address, Goal) {
    match step {
        Step::Connect {
            addr,
            server_name,
            goal,
        } => {
            assert_eq!(server_name, "pit1.nozomi.temporal.xyz");
            (addr, goal)
        }
        _ => panic!("not a connection"),
    }
}

fn transmit(step: Step) -> (Request<()>, Bytes, Attempt) {
    match step {
        Step::Transmit {
            request,
            body,
            attempt,
        } => (request, body, attempt),
        _ => panic!("not a transmission"),
    }
}

fn done(step: Step) -> Result<(), String> {
    match step {
        Step::Done(outcome) => outcome.map_err(|e| e.to_string()),
        _ => panic!("not done"),
    }
}

fn refused() -> Result<(), SendFailure> {
    Err(SendFailure::Headers("closed".into()))
}

#[test]
fn a_new_client_is_not_connected() {
    assert!(!client().is_connected(true));
}

#[test]
fn the_request_of_a_batch() {
    let mut client = warm_client();
    let body = NozomiQuicClient::encode_batch(&[&[7; 10]]).unwrap();
    let (request, sent, _) = transmit(client.send_raw(body.clone()));
    assert_eq!(request.method(), Method::POST);
    assert_eq!(request.uri().to_string(), "/api/sendBatch?c=key");
    assert_eq!(request.uri().path(), "/api/sendBatch");
    assert_eq!(request.uri().query(), Some("c=key"));
    assert_eq!(format!("{:?}", request.version()), "HTTP/1.1");
    assert!(request.extensions().is_empty());
    assert_eq!(request.headers().len(), 3);
    assert_eq!(request.headers()["host"], "pit1.nozomi.temporal.xyz");
    assert_eq!(request.headers()["content-type"], "application/octet-stream");
    assert_eq!(request.headers()["content-length"], "12");
    assert_eq!(sent, body);
}

#[test]
fn requests_differ_in_the_content_length() {
    let mut client = warm_client();
    let (mut a, _, _) = transmit(client.send_raw(Bytes::from(vec![0; 5])));
    let (mut b, _, _) = transmit(client.send_raw(Bytes::from(vec![0; 19_744])));
    assert_eq!(a.headers_mut().remove("content-length").unwrap(), "5");
    assert_eq!(b.headers_mut().remove("content-length").unwrap(), "19744");
    assert_eq!(a.method(), b.method());
    assert_eq!(a.uri(), b.uri());
    assert_eq!(a.headers(), b.headers());
}

#[test]
fn another_port_is_in_the_host_header_and_in_the_lookup() {
    let mut config = NozomiConfig::new("localhost", "key");
    config.port = 8443;
    let mut client = NozomiQuicClient::new(config).unwrap();
    let goal = match client.send_raw(Bytes::from(vec![1])) {
        Step::Resolve { key, goal } => {
            assert_eq!(key, "localhost:8443");
            goal
        }
        _ => panic!("not a lookup"),
    };
    let goal = match client.resolved(goal, Ok(vec![THERE])) {
        Step::Connect { goal, .. } => goal,
        _ => panic!("not a connection"),
    };
    let (request, _, _) = transmit(client.connection_made(goal, Ok(())));
    assert_eq!(request.headers()["host"], "localhost:8443");
}

#[test]
fn a_key_with_a_hash_is_passed_whole() {
    let mut client = NozomiQuicClient::new(NozomiConfig::new("h", "ab#c d")).unwrap();
    client.connection_made(Goal::Warm, Ok(()));
    let request = client.try_send(&Bytes::from(vec![1])).unwrap();
    assert_eq!(request.uri().to_string(), "/api/sendBatch?c=ab%23c%20d");
    assert_eq!(request.uri().query(), Some("c=ab%23c%20d"));
}

#[test]
fn a_key_may_hold_any_query_character() {
    let key = "!$%&'()*+,-./09:;=?@AZ[\\]^_`az{|}~\u{e9}";
    let mut client = NozomiQuicClient::new(NozomiConfig::new("h", key)).unwrap();
    client.connection_made(Goal::Warm, Ok(()));
    let request = client.try_send(&Bytes::from(vec![1])).unwrap();
    assert_eq!(
        request.uri().to_string(),
        format!("/api/sendBatch?c={}", key)
    );
}

#[test]
fn a_host_may_hold_tabs_and_more_than_ascii() {
    let mut client = NozomiQuicClient::new(NozomiConfig::new("a\t\u{e9}", "k")).unwrap();
    client.connection_made(Goal::Warm, Ok(()));
    let request = client.try_send(&Bytes::from(vec![1])).unwrap();
    assert_eq!(
        request.headers()["host"].as_bytes(),
        "a\t\u{e9}".as_bytes()
    );
}

#[test]
fn nothing_is_sent_without_a_connection() {
    let client = client();
    match client.try_send(&Bytes::from(vec![1])) {
        Err(Error::NotConnected) => {}
        _ => panic!("unexpected"),
    }
}

#[test]
fn warming_up_fails_where_the_lookup_fails() {
    let mut client = client();
    let goal = resolve(client.warmup());
    assert_eq!(
        done(client.resolved(goal, Err("timeout".into()))).unwrap_err(),
        "connection: DNS lookup pit1.nozomi.temporal.xyz:443: timeout"
    );
    assert!(!client.is_connected(true));
}

#[test]
fn warming_up_fails_where_there_is_no_address() {
    let mut client = client();
    let goal = resolve(client.warmup());
    assert_eq!(
        done(client.resolved(goal, Ok(vec![]))).unwrap_err(),
        "connection: no addresses for pit1.nozomi.temporal.xyz:443"
    );
}

#[test]
fn warming_up_fails_where_the_handshake_fails() {
    let mut client = client();
    let goal = resolve(client.warmup());
    let (_, goal) = connect(client.resolved(goal, Ok(vec![HERE])));
    let failure = ConnectFailure::QuicHandshake("timed out".into());
    assert_eq!(
        done(client.connection_made(goal, Err(failure))).unwrap_err(),
        "connection: QUIC handshake: timed out"
    );
    assert!(!client.is_connected(true));
}

#[test]
fn a_failed_warmup_keeps_the_connection() {
    let mut client = warm_client();
    let goal = resolve(client.warmup());
    done(client.resolved(goal, Err("timeout".into()))).unwrap_err();
    assert!(client.is_connected(true));
}

#[test]
fn warming_up_again_looks_the_host_up_again() {
    let mut client = warm_client();
    let goal = resolve(client.warmup());
    let (addr, goal) = connect(client.resolved(goal, Ok(vec![THERE])));
    assert_eq!(addr, THERE);
    done(client.connection_made(goal, Ok(()))).unwrap();
    client.disconnect();
    let (addr, _) = connect(client.send_raw(Bytes::from(vec![1])));
    assert_eq!(addr, THERE);
}

#[test]
fn a_connection_that_is_no_longer_open_is_not_active() {
    let mut client = warm_client();
    assert!(client.is_connected(true));
    assert!(!client.is_connected(false));
    client.disconnect();
    assert!(!client.is_connected(true));
    assert!(!client.is_connected(false));
}

#[test]
fn a_warm_send_is_one_transmission() {
    let mut client = warm_client();
    let (_, _, attempt) = transmit(client.send_raw(Bytes::from(vec![1])));
    done(client.transmitted(attempt, Ok(()))).unwrap();
    assert!(client.is_connected(true));
}

#[test]
fn a_failed_send_reconnects_to_the_cached_address_and_retries() {
    let mut client = warm_client();
    let body = Bytes::from(vec![1, 2, 3]);
    let (first, _, attempt) = transmit(client.send_raw(body.clone()));
    let (addr, goal) = connect(client.transmitted(attempt, refused()));
    assert_eq!(addr, HERE);
    assert!(!client.is_connected(true));
    let (second, sent, attempt) = transmit(client.connection_made(goal, Ok(())));
    assert_eq!(sent, body);
    assert_eq!(first.headers(), second.headers());
    assert_eq!(first.uri(), second.uri());
    done(client.transmitted(attempt, Ok(()))).unwrap();
    assert!(client.is_connected(true));
}

#[test]
fn a_send_is_retried_only_once() {
    let mut client = warm_client();
    let (_, _, attempt) = transmit(client.send_raw(Bytes::from(vec![1])));
    let (_, goal) = connect(client.transmitted(attempt, refused()));
    let (_, _, attempt) = transmit(client.connection_made(goal, Ok(())));
    let failure = SendFailure::Finish("reset".into());
    assert_eq!(
        done(client.transmitted(attempt, Err(failure))).unwrap_err(),
        "request: finish stream: reset"
    );
}

#[test]
fn a_failed_reconnect_ends_the_send() {
    let mut client = warm_client();
    let (_, _, attempt) = transmit(client.send_raw(Bytes::from(vec![1])));
    let (_, goal) = connect(client.transmitted(attempt, refused()));
    let failure = ConnectFailure::H3Handshake("closed".into());
    assert_eq!(
        done(client.connection_made(goal, Err(failure))).unwrap_err(),
        "connection: H3 handshake: closed"
    );
    assert!(!client.is_connected(true));
}

#[test]
fn a_cold_send_connects_first() {
    let mut client = client();
    let goal = resolve(client.send_raw(Bytes::from(vec![1])));
    let (addr, goal) = connect(client.resolved(goal, Ok(vec![THERE, HERE])));
    assert_eq!(addr, THERE);
    let (_, sent, attempt) = transmit(client.connection_made(goal, Ok(())));
    assert_eq!(sent, Bytes::from(vec![1]));
    done(client.transmitted(attempt, Ok(()))).unwrap();
    assert!(client.is_connected(true));
}

#[test]
fn a_send_after_a_disconnect_reconnects() {
    let mut client = warm_client();
    client.disconnect();
    client.disconnect();
    assert!(!client.is_connected(true));
    let (addr, goal) = connect(client.send_raw(Bytes::from(vec![1])));
    assert_eq!(addr, HERE);
    transmit(client.connection_made(goal, Ok(())));
    assert!(client.is_connected(true));
}

#[test]
fn requests_stay_the_same_whatever_came_before() {
    let mut client = warm_client();
    let body = Bytes::from(vec![1, 2]);
    let first = client.try_send(&body).unwrap();
    let (_, _, attempt) = transmit(client.send_raw(body.clone()));
    let (_, goal) = connect(client.transmitted(attempt, refused()));
    let failure = ConnectFailure::QuicConnect("no".into());
    done(client.connection_made(goal, Err(failure))).unwrap_err();
    let goal = resolve(client.warmup());
    done(client.resolved(goal, Err("down".into()))).unwrap_err();
    client.disconnect();
    let goal = resolve(client.warmup());
    let (_, goal) = connect(client.resolved(goal, Ok(vec![THERE])));
    done(client.connection_made(goal, Ok(()))).unwrap();
    let last = client.try_send(&body).unwrap();
    assert_eq!(first.method(), last.method());
    assert_eq!(first.uri(), last.uri());
    assert_eq!(first.headers(), last.headers());
}

#[test]
fn a_batch_is_encoded_and_sent() {
    let mut client = warm_client();
    let (request, body, _) = transmit(client.send_batch(&[&[7, 9], &[]]));
    assert_eq!(&body[..], &[0, 2, 7, 9, 0, 0]);
    assert_eq!(request.headers()["content-length"], "6");
}

#[test]
fn a_batch_that_cannot_be_encoded_is_not_sent() {
    let mut client = warm_client();
    assert_eq!(done(client.send_batch(&[])).unwrap_err(), "batch: empty batch");
    assert!(client.is_connected(true));
}
