//! The batch wire format.

use crate::error::ErrorModel;
use crate::text::decimal;
use crate::wire::{
    all_fit, body, body_len, contents, encoding, first_oversized, frame, limit_message, read_back,
    MAX_BATCH_BODY_SIZE, MAX_BATCH_SIZE, MAX_TX_SIZE,
};
use vstd::prelude::*;

verus! {


/// A body has the length that was computed for it.
proof fn lemma_body_len(txs: Seq<Seq<u8>>)
    ensures
        body(txs).len() == body_len(txs),
    decreases txs.len(),
{
    if txs.len() > 0 {
        lemma_body_len(txs.drop_last());
    }
}

/// Transactions that fit make a body that fits.
proof fn lemma_body_len_bound(txs: Seq<Seq<u8>>)
    requires
        all_fit(txs),
    ensures
        body_len(txs) <= txs.len() * (2 + MAX_TX_SIZE),
    decreases txs.len(),
{
    if txs.len() > 0 {
        assert forall|i: int| 0 <= i < txs.drop_last().len() implies (
        #[trigger] txs.drop_last()[i]).len() <= MAX_TX_SIZE by {
            assert(txs.drop_last()[i] == txs[i]);
        }
        lemma_body_len_bound(txs.drop_last());
        assert(txs[txs.len() - 1].len() <= MAX_TX_SIZE);
    }
}

/// A batch can be encoded if and only if it has 1 to 16 transactions of up to 1,232 bytes each.
/// The limit on the body never rejects such a batch.
pub proof fn law_encodes_within_limits(txs: Seq<Seq<u8>>)
    ensures
        encoding(txs) is Ok <==> 0 < txs.len() <= MAX_BATCH_SIZE && all_fit(txs),
{
    if txs.len() <= MAX_BATCH_SIZE && all_fit(txs) {
        lemma_body_len_bound(txs);
    }
}

/// An encoded batch takes two bytes and its own for each transaction, and never more than the
/// limit on the body.
pub proof fn law_encoded_length(txs: Seq<Seq<u8>>)
    ensures
        encoding(txs) matches Ok(bytes) ==> bytes.len() == body_len(txs) <= MAX_BATCH_BODY_SIZE,
{
    lemma_body_len(txs);
}

/// A full batch of transactions of the largest size reaches the limit on the body exactly.
pub proof fn law_full_batch_fills_body(txs: Seq<Seq<u8>>)
    requires
        txs.len() == MAX_BATCH_SIZE,
        forall|i: int| 0 <= i < txs.len() ==> (#[trigger] txs[i]).len() == MAX_TX_SIZE,
    ensures
        encoding(txs) matches Ok(bytes) && bytes.len() == MAX_BATCH_BODY_SIZE,
{
    lemma_uniform_body_len(txs, MAX_TX_SIZE as nat);
    lemma_body_len(txs);
}

proof fn lemma_uniform_body_len(txs: Seq<Seq<u8>>, size: nat)
    requires
        forall|i: int| 0 <= i < txs.len() ==> (#[trigger] txs[i]).len() == size,
    ensures
        body_len(txs) == txs.len() * (2 + size),
    decreases txs.len(),
{
    if txs.len() > 0 {
        assert forall|i: int| 0 <= i < txs.drop_last().len() implies (
        #[trigger] txs.drop_last()[i]).len() == size by {
            assert(txs.drop_last()[i] == txs[i]);
        }
        lemma_uniform_body_len(txs.drop_last(), size);
        assert(txs[txs.len() - 1].len() == size);
        assert(txs.len() * (2 + size) == (txs.len() - 1) * (2 + size) + (2 + size))
            by (nonlinear_arith)
            requires
                txs.len() > 0,
        ;
    } else {
        assert(0 * (2 + size) == 0);
    }
}

/// Where a batch is rejected for one transaction, it is the first that is too large.
pub proof fn law_first_oversized_is_reported(txs: Seq<Seq<u8>>, i: int)
    requires
        0 < txs.len() <= MAX_BATCH_SIZE,
        body_len(txs) <= MAX_BATCH_BODY_SIZE,
        first_oversized(txs, i),
    ensures
        encoding(txs) == Err::<Seq<u8>, ErrorModel>(
            ErrorModel::Batch(
                limit_message(
                    "transaction too large: "@,
                    txs[i].len(),
                    " bytes"@,
                    MAX_TX_SIZE as nat,
                ),
            ),
        ),
{
    assert(txs[i].len() > MAX_TX_SIZE);
    let k = choose|k: int| first_oversized(txs, k);
    assert(first_oversized(txs, k));
    if k < i {
        assert(txs[k].len() <= MAX_TX_SIZE);
    } else if i < k {
        assert(txs[i].len() <= MAX_TX_SIZE);
    }
}

/// The frames of two batches, one after the other, are the frames of both batches together.
pub proof fn law_bodies_concatenate(a: Seq<Seq<u8>>, b: Seq<Seq<u8>>)
    ensures
        body(a + b) == body(a) + body(b),
    decreases b.len(),
{
    if b.len() == 0 {
        assert(a + b == a);
    } else {
        assert((a + b).drop_last() == a + b.drop_last());
        law_bodies_concatenate(a, b.drop_last());
    }
}

/// A reader gets back from an encoded batch the transactions that went into it, in order.
pub proof fn law_read_back(txs: Seq<Seq<u8>>)
    ensures
        encoding(txs) matches Ok(bytes) ==> read_back(bytes) == Some(txs),
{
    if encoding(txs) is Ok {
        lemma_read_back(txs);
    }
}

proof fn lemma_read_back(txs: Seq<Seq<u8>>)
    requires
        all_fit(txs),
    ensures
        read_back(body(txs)) == Some(txs),
    decreases txs.len(),
{
    if txs.len() == 0 {
        assert(txs == Seq::<Seq<u8>>::empty());
    } else {
        let first = txs[0];
        let rest = txs.drop_first();
        assert(first.len() <= MAX_TX_SIZE);
        assert(txs == seq![first] + rest);
        law_bodies_concatenate(seq![first], rest);
        assert(seq![first].drop_last() == Seq::<Seq<u8>>::empty());
        assert(body(seq![first].drop_last()) == Seq::<u8>::empty());
        assert(body(seq![first]) == frame(first));
        let bytes = body(txs);
        assert(bytes == frame(first) + body(rest));
        let end = 2 + first.len();
        assert(bytes[0] * 256 + bytes[1] == first.len());
        assert(bytes.subrange(2, end as int) == first);
        assert(bytes.skip(end as int) == body(rest));
        assert(all_fit(rest)) by {
            assert forall|i: int| 0 <= i < rest.len() implies (#[trigger] rest[i]).len()
                <= MAX_TX_SIZE by {
                assert(rest[i] == txs[i + 1]);
            }
        }
        lemma_read_back(rest);
    }
}

/// Two batches that encode to the same bytes are the same batch.
pub proof fn law_encoding_is_injective(a: Seq<Seq<u8>>, b: Seq<Seq<u8>>)
    requires
        encoding(a) is Ok,
        encoding(a) == encoding(b),
    ensures
        a == b,
{
    law_read_back(a);
    law_read_back(b);
}

/// The transactions that an encoding speaks of are the arguments themselves, byte by byte.
pub proof fn law_contents(transactions: Seq<&[u8]>, i: int)
    requires
        0 <= i < transactions.len(),
    ensures
        contents(transactions).len() == transactions.len(),
        contents(transactions)[i] == transactions[i]@,
{
}

/// A batch of one transaction is its length in two bytes, the high one first, and all of its
/// bytes.
pub proof fn law_one_transaction(tx: &[u8])
    ensures
        encoding(contents(seq![tx])) is Ok <==> tx@.len() <= 1232,
        encoding(contents(seq![tx])) matches Ok(bytes) ==> {
            &&& bytes.len() == 2 + tx@.len()
            &&& 256 * bytes[0] + bytes[1] == tx@.len()
            &&& bytes.skip(2) == tx@
        },
{
    let txs = contents(seq![tx]);
    assert(txs == seq![tx@]);
    law_encodes_within_limits(txs);
    assert(all_fit(txs) <==> txs[0].len() <= MAX_TX_SIZE);
    reveal_with_fuel(body, 2);
    assert(txs.drop_last() == Seq::<Seq<u8>>::empty());
    assert(body(txs) == frame(tx@));
    assert(frame(tx@).skip(2) == tx@);
}

/// One transaction more in a batch leaves what was encoded before as it is, and adds the length
/// of the transaction in two bytes, the high one first, and all of its bytes.
pub proof fn law_one_transaction_more(transactions: Seq<&[u8]>, tx: &[u8])
    requires
        0 < transactions.len() < 16,
    ensures
        encoding(contents(transactions.push(tx))) is Ok <==> encoding(contents(transactions)) is Ok
            && tx@.len() <= 1232,
        encoding(contents(transactions)) matches Ok(before) ==> (encoding(
            contents(transactions.push(tx)),
        ) matches Ok(after) ==> {
            let n = before.len() as int;
            &&& after.len() == n + 2 + tx@.len()
            &&& after.take(n) == before
            &&& 256 * after[n] + after[n + 1] == tx@.len()
            &&& after.skip(n + 2) == tx@
        }),
{
    let txs = contents(transactions);
    let more = contents(transactions.push(tx));
    assert(more == txs.push(tx@));
    assert(more.drop_last() == txs);
    law_encodes_within_limits(txs);
    law_encodes_within_limits(more);
    assert(all_fit(more) <==> all_fit(txs) && tx@.len() <= MAX_TX_SIZE) by {
        assert(forall|i: int| 0 <= i < txs.len() ==> #[trigger] more[i] == txs[i]);
        assert(forall|i: int| 0 <= i < txs.len() ==> #[trigger] txs[i] == more[i]);
        assert(more[txs.len() as int] == tx@);
    }
    let n = body(txs).len() as int;
    assert(body(more) == body(txs) + frame(tx@));
    assert(body(more).take(n) == body(txs));
    assert(body(more).skip(n + 2) == tx@);
    assert(body(more)[n] == frame(tx@)[0] && body(more)[n + 1] == frame(tx@)[1]);
}

/// A batch can be encoded if and only if it has 1 to 16 transactions of at most 1,232 bytes
/// each.
pub proof fn law_limits(transactions: Seq<&[u8]>)
    ensures
        encoding(contents(transactions)) is Ok <==> {
            &&& 0 < transactions.len() <= 16
            &&& forall|i: int|
                0 <= i < transactions.len() ==> (#[trigger] transactions[i])@.len() <= 1232
        },
{
    let txs = contents(transactions);
    law_encodes_within_limits(txs);
    assert(forall|i: int| 0 <= i < txs.len() ==> #[trigger] txs[i] == transactions[i]@);
    assert(forall|i: int| 0 <= i < txs.len() ==> (#[trigger] transactions[i])@ == txs[i]);
}

/// A reader of an encoded batch gets the transactions, in order.
pub proof fn law_transactions_can_be_read(transactions: Seq<&[u8]>, i: int)
    requires
        0 <= i < transactions.len(),
    ensures
        encoding(contents(transactions)) matches Ok(bytes) ==> {
            &&& read_back(bytes) matches Some(txs)
            &&& txs.len() == transactions.len()
            &&& txs[i] == transactions[i]@
        },
{
    law_read_back(contents(transactions));
}

proof fn lemma_total(transactions: Seq<&[u8]>)
    ensures
        body_len(contents(transactions)) == transactions.fold_left(
            0int,
            |n: int, tx: &[u8]| n + 2 + tx@.len(),
        ),
    decreases transactions.len(),
{
    if transactions.len() > 0 {
        lemma_total(transactions.drop_last());
        assert(contents(transactions).drop_last() == contents(transactions.drop_last()));
    }
}

proof fn lemma_max_texts(what: Seq<char>, n: nat, unit: Seq<char>)
    ensures
        limit_message(what, n, unit, 16) == what + decimal(n) + unit + " (max 16)"@,
        limit_message(what, n, unit, 1232) == what + decimal(n) + unit + " (max 1232)"@,
        limit_message(what, n, unit, 19_744) == what + decimal(n) + unit + " (max 19744)"@,
{
    reveal_strlit(" (max ");
    reveal_strlit(")");
    reveal_strlit(" (max 16)");
    reveal_strlit(" (max 1232)");
    reveal_strlit(" (max 19744)");
    reveal_with_fuel(decimal, 5);
    assert(decimal(16) == seq!['1', '6']);
    assert(decimal(1232) == seq!['1', '2', '3', '2']);
    assert(decimal(19_744) == seq!['1', '9', '7', '4', '4']);
    assert(limit_message(what, n, unit, 16) =~= what + decimal(n) + unit + " (max 16)"@);
    assert(limit_message(what, n, unit, 1232) =~= what + decimal(n) + unit + " (max 1232)"@);
    assert(limit_message(what, n, unit, 19_744) =~= what + decimal(n) + unit + " (max 19744)"@);
}

/// Batches without transactions and batches with too many are rejected as such, whatever the
/// transactions are.
pub proof fn law_wrong_number_of_transactions(transactions: Seq<&[u8]>)
    ensures
        transactions.len() == 0 ==> encoding(contents(transactions)) == Err::<Seq<u8>, ErrorModel>(
            ErrorModel::Batch("empty batch"@),
        ),
        transactions.len() > 16 ==> encoding(contents(transactions)) == Err::<Seq<u8>, ErrorModel>(
            ErrorModel::Batch(
                "too many transactions: "@ + decimal(transactions.len()) + " (max 16)"@,
            ),
        ),
{
    reveal_strlit("");
    let n = transactions.len();
    lemma_max_texts("too many transactions: "@, n, ""@);
    assert("too many transactions: "@ + decimal(n) + ""@ =~= "too many transactions: "@ + decimal(
        n,
    ));
}

/// A batch whose transactions, with two bytes for each, are over the limit on the body is
/// rejected with that number of bytes.
pub proof fn law_body_too_large(transactions: Seq<&[u8]>)
    requires
        0 < transactions.len() <= 16,
    ensures
        ({
            let total = transactions.fold_left(0int, |n: int, tx: &[u8]| n + 2 + tx@.len());
            total > 19_744 ==> encoding(contents(transactions)) == Err::<Seq<u8>, ErrorModel>(
                ErrorModel::Batch(
                    "batch body too large: "@ + decimal(total as nat) + " bytes"@
                        + " (max 19744)"@,
                ),
            )
        }),
{
    lemma_total(transactions);
    lemma_max_texts("batch body too large: "@, body_len(contents(transactions)), " bytes"@);
}

/// A batch within the limit on the body whose transaction at `i` is the first that is too large
/// is rejected with the size of that transaction.
pub proof fn law_transaction_too_large(transactions: Seq<&[u8]>, i: int)
    requires
        0 <= i < transactions.len() <= 16,
        transactions.fold_left(0int, |n: int, tx: &[u8]| n + 2 + tx@.len()) <= 19_744,
        transactions[i]@.len() > 1232,
        forall|j: int| 0 <= j < i ==> (#[trigger] transactions[j])@.len() <= 1232,
    ensures
        encoding(contents(transactions)) == Err::<Seq<u8>, ErrorModel>(
            ErrorModel::Batch(
                "transaction too large: "@ + decimal(transactions[i]@.len()) + " bytes"@
                    + " (max 1232)"@,
            ),
        ),
{
    let txs = contents(transactions);
    lemma_total(transactions);
    assert forall|j: int| 0 <= j < i implies (#[trigger] txs[j]).len() <= MAX_TX_SIZE by {
        assert(txs[j] == transactions[j]@);
    }
    law_first_oversized_is_reported(txs, i);
    lemma_max_texts("transaction too large: "@, txs[i].len(), " bytes"@);
}

} // verus!
