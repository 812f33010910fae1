//! The batch wire format.
//!
//! A batch is the concatenation of its transactions, each behind its length as a
//! big-endian 16-bit number:
//!
//! ```text
//! [len_hi][len_lo][tx_bytes...][len_hi][len_lo][tx_bytes...]...
//! ```

use crate::error::{Error, ErrorModel};
use crate::laws::wire::law_read_back;
use crate::text::{decimal, decimal_text};
use vstd::prelude::*;
use vstd::string::StringExecFns;

verus! {

/// Maximum transactions per batch (server limit).
pub const MAX_BATCH_SIZE: usize = 16;

/// Maximum size of a single transaction in bytes.
pub const MAX_TX_SIZE: usize = 1232;

/// Maximum batch body size in bytes.
pub const MAX_BATCH_BODY_SIZE: usize = 19_744;

/// The bytes of each transaction.
pub open spec fn contents(transactions: Seq<&[u8]>) -> Seq<Seq<u8>> {
    transactions.map_values(|tx: &[u8]| tx@)
}

/// One transaction behind its length.
pub open spec fn frame(tx: Seq<u8>) -> Seq<u8> {
    seq![(tx.len() / 256) as u8, (tx.len() % 256) as u8] + tx
}

/// The body of a batch: its frames, one after the other.
pub open spec fn body(txs: Seq<Seq<u8>>) -> Seq<u8>
    decreases txs.len(),
{
    if txs.len() == 0 {
        Seq::empty()
    } else {
        body(txs.drop_last()) + frame(txs.last())
    }
}

/// The number of bytes that a batch takes: two and its own for each transaction.
pub open spec fn body_len(txs: Seq<Seq<u8>>) -> nat
    decreases txs.len(),
{
    if txs.len() == 0 {
        0
    } else {
        body_len(txs.drop_last()) + 2 + txs.last().len()
    }
}

/// Reads a body back, frame by frame. `None` where the last frame is cut short.
pub open spec fn read_back(bytes: Seq<u8>) -> Option<Seq<Seq<u8>>>
    decreases bytes.len(),
{
    if bytes.len() == 0 {
        Some(Seq::empty())
    } else if bytes.len() < 2 || bytes.len() < 2 + bytes[0] * 256 + bytes[1] {
        None
    } else {
        let end = 2 + bytes[0] * 256 + bytes[1];
        match read_back(bytes.skip(end)) {
            Some(txs) => Some(seq![bytes.subrange(2, end)] + txs),
            None => None,
        }
    }
}

/// Whether a body reads back as the transactions, each with all of its bytes.
pub open spec fn reads_as(bytes: Seq<u8>, transactions: Seq<&[u8]>) -> bool {
    &&& read_back(bytes) matches Some(txs)
    &&& txs.len() == transactions.len()
    &&& forall|i: int| 0 <= i < txs.len() ==> #[trigger] txs[i] == transactions[i]@
}

/// Whether the transaction at `i` is the first that is over the limit.
pub open spec fn first_oversized(txs: Seq<Seq<u8>>, i: int) -> bool {
    &&& 0 <= i < txs.len()
    &&& txs[i].len() > MAX_TX_SIZE
    &&& forall|j: int| 0 <= j < i ==> (#[trigger] txs[j]).len() <= MAX_TX_SIZE
}

/// Whether every transaction is within the limit.
pub open spec fn all_fit(txs: Seq<Seq<u8>>) -> bool {
    forall|i: int| 0 <= i < txs.len() ==> (#[trigger] txs[i]).len() <= MAX_TX_SIZE
}

/// `what`, the number that is too large, its unit, and the limit.
pub open spec fn limit_message(what: Seq<char>, n: nat, unit: Seq<char>, max: nat) -> Seq<char> {
    what + decimal(n) + unit + " (max "@ + decimal(max) + ")"@
}

/// What encoding a batch gives. The limits are tested in this order: the number of
/// transactions, the size of the body, the size of each transaction.
pub open spec fn encoding(txs: Seq<Seq<u8>>) -> Result<Seq<u8>, ErrorModel> {
    if txs.len() == 0 {
        Err(ErrorModel::Batch("empty batch"@))
    } else if txs.len() > MAX_BATCH_SIZE {
        Err(
            ErrorModel::Batch(
                limit_message("too many transactions: "@, txs.len(), ""@, MAX_BATCH_SIZE as nat),
            ),
        )
    } else if body_len(txs) > MAX_BATCH_BODY_SIZE {
        Err(
            ErrorModel::Batch(
                limit_message(
                    "batch body too large: "@,
                    body_len(txs),
                    " bytes"@,
                    MAX_BATCH_BODY_SIZE as nat,
                ),
            ),
        )
    } else if !all_fit(txs) {
        let i = choose|i: int| first_oversized(txs, i);
        Err(
            ErrorModel::Batch(
                limit_message(
                    "transaction too large: "@,
                    txs[i].len(),
                    " bytes"@,
                    MAX_TX_SIZE as nat,
                ),
            ),
        )
    } else {
        Ok(body(txs))
    }
}

/// Reports that `n` is over the limit `max`.
fn limit_error(what: &str, n: u128, unit: &str, max: usize) -> (error: Error)
    ensures
        error@ == ErrorModel::Batch(limit_message(what@, n as nat, unit@, max as nat)),
{
    let mut msg: String = what.to_owned();
    msg.append(&decimal_text(n));
    msg.append(unit);
    msg.append(" (max ");
    msg.append(&decimal_text(max as u128));
    msg.append(")");
    Error::Batch(msg)
}

/// Adds up the number of bytes that a batch takes.
fn measure(transactions: &[&[u8]]) -> (len: u128)
    requires
        transactions@.len() <= MAX_BATCH_SIZE,
    ensures
        len == body_len(contents(transactions@)),
{
    let ghost txs = contents(transactions@);
    let mut len: u128 = 0;
    let mut i: usize = 0;
    while i < transactions.len()
        invariant
            i <= transactions@.len() <= MAX_BATCH_SIZE,
            txs == contents(transactions@),
            len == body_len(txs.take(i as int)),
            len <= i * 0x2_0000_0000_0000_0000,
        decreases transactions@.len() - i,
    {
        assert(txs.take(i + 1).drop_last() == txs.take(i as int));
        assert(txs.take(i + 1).last() == transactions@[i as int]@);
        len = len + 2 + transactions[i].len() as u128;
        i = i + 1;
    }
    assert(txs.take(i as int) == txs);
    len
}

/// Encodes transactions into the batch wire format.
pub fn encode(transactions: &[&[u8]]) -> (r: Result<Vec<u8>, Error>)
    ensures
        match r {
            Ok(bytes) => encoding(contents(transactions@)) == Ok::<Seq<u8>, ErrorModel>(bytes@)
                && reads_as(bytes@, transactions@),
            Err(e) => encoding(contents(transactions@)) == Err::<Seq<u8>, ErrorModel>(e@),
        },
{
    let ghost txs = contents(transactions@);
    if transactions.len() == 0 {
        return Err(Error::Batch("empty batch".to_owned()));
    }
    if transactions.len() > MAX_BATCH_SIZE {
        return Err(
            limit_error("too many transactions: ", transactions.len() as u128, "", MAX_BATCH_SIZE),
        );
    }
    let len: u128 = measure(transactions);
    if len > MAX_BATCH_BODY_SIZE as u128 {
        return Err(limit_error("batch body too large: ", len, " bytes", MAX_BATCH_BODY_SIZE));
    }
    let mut bytes: Vec<u8> = Vec::with_capacity(len as usize);
    let mut i: usize = 0;
    while i < transactions.len()
        invariant
            i <= transactions@.len(),
            txs == contents(transactions@),
            0 < txs.len() <= MAX_BATCH_SIZE,
            body_len(txs) <= MAX_BATCH_BODY_SIZE,
            all_fit(txs.take(i as int)),
            bytes@ == body(txs.take(i as int)),
        decreases transactions@.len() - i,
    {
        let tx: &[u8] = transactions[i];
        assert(tx@ == txs[i as int]);
        if tx.len() > MAX_TX_SIZE {
            proof {
                lemma_first_oversized(txs, i as int);
            }
            return Err(
                limit_error("transaction too large: ", tx.len() as u128, " bytes", MAX_TX_SIZE),
            );
        }
        assert(txs.take(i + 1).drop_last() == txs.take(i as int));
        bytes.push((tx.len() / 256) as u8);
        bytes.push((tx.len() % 256) as u8);
        bytes.extend_from_slice(tx);
        assert(bytes@ == body(txs.take(i as int)) + frame(tx@));
        i = i + 1;
    }
    assert(txs.take(i as int) == txs);
    proof {
        law_read_back(txs);
    }
    Ok(bytes)
}

/// The first oversized transaction is the one that [`encoding`] reports.
proof fn lemma_first_oversized(txs: Seq<Seq<u8>>, i: int)
    requires
        0 <= i < txs.len(),
        all_fit(txs.take(i)),
        txs[i].len() > MAX_TX_SIZE,
    ensures
        !all_fit(txs),
        first_oversized(txs, i),
        forall|k: int| first_oversized(txs, k) ==> k == i,
{
    assert forall|j: int| 0 <= j < i implies (#[trigger] txs[j]).len() <= MAX_TX_SIZE by {
        assert(txs.take(i)[j] == txs[j]);
    }
}

} // verus!
