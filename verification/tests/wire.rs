use nozomi_quic_client::{Error, NozomiQuicClient, MAX_BATCH_SIZE};

fn batch_error(transactions: &[&[u8]]) -> String {
    match NozomiQuicClient::encode_batch(transactions) {
        Err(Error::Batch(msg)) => msg,
        other => panic!("unexpected: {:?}", other),
    }
}

/// Reads a body back, frame by frame.
fn read_back(body: &[u8]) -> Vec<Vec<u8>> {
    let mut rest = body;
    let mut txs = Vec::new();
    while !rest.is_empty() {
        let len = u16::from_be_bytes([rest[0], rest[1]]) as usize;
        txs.push(rest[2..2 + len].to_vec());
        rest = &rest[2 + len..];
    }
    txs
}

#[test]
fn one_transaction_is_framed() {
    let tx = [7u8, 9u8];
    let body = NozomiQuicClient::encode_batch(&[&tx]).unwrap();
    assert_eq!(&body[..], &[0, 2, 7, 9]);
}

#[test]
fn lengths_are_big_endian() {
    let tx = vec![1u8; 200];
    let long = vec![2u8; 0x0123];
    let body = NozomiQuicClient::encode_batch(&[&tx, &long]).unwrap();
    assert_eq!(&body[..2], &[0, 200]);
    assert_eq!(&body[202..204], &[0x01, 0x23]);
    assert_eq!(body.len(), 2 + 200 + 2 + 0x0123);
}

#[test]
fn an_empty_transaction_is_an_empty_frame() {
    let body = NozomiQuicClient::encode_batch(&[&[], &[5], &[]]).unwrap();
    assert_eq!(&body[..], &[0, 0, 0, 1, 5, 0, 0]);
}

#[test]
fn transactions_are_read_back_in_order() {
    let a = vec![1u8; 300];
    let b = vec![2u8; 1];
    let c = vec![3u8; 1232];
    let body = NozomiQuicClient::encode_batch(&[&a, &b, &c]).unwrap();
    assert_eq!(read_back(&body), vec![a, b, c]);
}

#[test]
fn bodies_concatenate() {
    let a = vec![1u8; 3];
    let b = vec![2u8; 4];
    let both = NozomiQuicClient::encode_batch(&[&a, &b]).unwrap();
    let mut joined = NozomiQuicClient::encode_batch(&[&a]).unwrap().to_vec();
    joined.extend_from_slice(&NozomiQuicClient::encode_batch(&[&b]).unwrap());
    assert_eq!(both.to_vec(), joined);
}

#[test]
fn different_batches_have_different_bodies() {
    let split = NozomiQuicClient::encode_batch(&[&[1], &[2]]).unwrap();
    let whole = NozomiQuicClient::encode_batch(&[&[1, 2]]).unwrap();
    assert_ne!(split, whole);
}

#[test]
fn a_full_batch_fills_the_body() {
    assert_eq!(MAX_BATCH_SIZE, 16);
    let tx = vec![9u8; 1232];
    let txs: Vec<&[u8]> = vec![&tx; 16];
    let body = NozomiQuicClient::encode_batch(&txs).unwrap();
    assert_eq!(body.len(), 19_744);
}

#[test]
fn no_transactions_are_rejected() {
    assert_eq!(batch_error(&[]), "empty batch");
}

#[test]
fn too_many_transactions_are_rejected() {
    let txs: Vec<&[u8]> = vec![&[1]; 17];
    assert_eq!(batch_error(&txs), "too many transactions: 17 (max 16)");
    let txs: Vec<&[u8]> = vec![&[1]; 100];
    assert_eq!(batch_error(&txs), "too many transactions: 100 (max 16)");
}

#[test]
fn the_count_is_tested_before_the_sizes() {
    let tx = vec![1u8; 5000];
    let txs: Vec<&[u8]> = vec![&tx; 17];
    assert_eq!(batch_error(&txs), "too many transactions: 17 (max 16)");
}

#[test]
fn a_large_body_is_rejected_before_its_transactions() {
    let tx = vec![1u8; 19_743];
    assert_eq!(
        batch_error(&[&tx]),
        "batch body too large: 19745 bytes (max 19744)"
    );
}

#[test]
fn a_large_transaction_is_rejected() {
    let tx = vec![1u8; 1233];
    assert_eq!(
        batch_error(&[&tx]),
        "transaction too large: 1233 bytes (max 1232)"
    );
    let tx = vec![1u8; 19_742];
    assert_eq!(
        batch_error(&[&tx]),
        "transaction too large: 19742 bytes (max 1232)"
    );
}

#[test]
fn the_first_large_transaction_is_reported() {
    let a = vec![1u8; 1232];
    let b = vec![1u8; 1234];
    let c = vec![1u8; 1235];
    assert_eq!(
        batch_error(&[&a, &b, &c]),
        "transaction too large: 1234 bytes (max 1232)"
    );
}
