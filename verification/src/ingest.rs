//! Block ingestion.
//!
//! One block is indexed by walking its transactions in canonical order.
//! For each transaction the ingestor reconstructs the canonical form,
//! decodes the protocol artifact, and stages the artifact's mutations
//! between a matched pair of `BeginTransaction` / `EndTransaction`
//! commands. The result is the complete, ordered staging sequence for the
//! block; the caller flushes it into one store-wide transaction and
//! commits, so the store reflects either all of the block's mutations or
//! none.

use vstd::prelude::*;

use crate::IndexError;
use crate::data::{BlockData, BlockDataV, TransactionData, TransactionDataV};
use crate::decode::{decipher_of, decode_artifact, wf_canonical_ids};
use crate::dispatch::{
    StagingOp, StagingOpV, dispatch_ops, is_context_op, lemma_ops_deep_view_push, stage_artifact,
};
use crate::hex::hex_bytes;
use crate::reconstruct::{
    canonical_view, input_view, input_views, inputs_error, reconstruct_transaction, wf_input,
    wf_transaction,
};

verus! {

/// The command opening transaction `tx`'s mutation-staging context, keyed
/// by block height, transaction index, transaction id, and block
/// timestamp.
pub open spec fn begin_op(height: u64, timestamp: u32, tx: TransactionDataV) -> StagingOpV {
    StagingOpV::BeginTransaction { height, tx_index: tx.tx_index, tx_id: tx.tx_id, timestamp }
}

/// The staging sequence for one transaction: its begin command, the
/// commands its decoded artifact causes, and its end command.
pub open spec fn transaction_ops(height: u64, timestamp: u32, tx: TransactionDataV) -> Seq<
    StagingOpV,
> {
    seq![begin_op(height, timestamp, tx)] + dispatch_ops(
        decipher_of(canonical_view(timestamp, tx)),
        tx.inputs,
        tx.outputs,
    ) + seq![StagingOpV::EndTransaction]
}

/// The staging sequence for the transactions `txs`, in order.
pub open spec fn txs_ops(height: u64, timestamp: u32, txs: Seq<TransactionDataV>) -> Seq<
    StagingOpV,
>
    decreases txs.len(),
{
    if txs.len() == 0 {
        seq![]
    } else {
        transaction_ops(height, timestamp, txs[0]) + txs_ops(height, timestamp, txs.drop_first())
    }
}

/// The complete staging sequence for the block `b`.
pub open spec fn block_ops(b: BlockDataV) -> Seq<StagingOpV> {
    txs_ops(b.height, b.timestamp, b.transactions)
}

/// A block whose every transaction reconstructs without error.
pub open spec fn wf_block(b: BlockDataV) -> bool {
    forall|k: int| 0 <= k < b.transactions.len() ==> wf_transaction(#[trigger] b.transactions[k])
}

/// The error reported for the first malformed transaction of `txs`.
pub open spec fn txs_error(txs: Seq<TransactionDataV>) -> IndexError
    recommends
        exists|k: int| 0 <= k < txs.len() && !wf_transaction(#[trigger] txs[k]),
    decreases txs.len(),
{
    if txs.len() == 0 {
        IndexError::MalformedTxidHash
    } else if !wf_transaction(txs[0]) {
        inputs_error(txs[0].inputs)
    } else {
        txs_error(txs.drop_first())
    }
}

/// The error reported for the (malformed) block `b`.
pub open spec fn block_error(b: BlockDataV) -> IndexError {
    txs_error(b.transactions)
}

/// If `j` is the first malformed index, `txs_error` reports its error.
proof fn lemma_txs_error_at(txs: Seq<TransactionDataV>, j: int)
    requires
        0 <= j < txs.len(),
        !wf_transaction(txs[j]),
        forall|k: int| 0 <= k < j ==> wf_transaction(#[trigger] txs[k]),
    ensures
        txs_error(txs) == inputs_error(txs[j].inputs),
    decreases j,
{
    if j > 0 {
        lemma_txs_error_at(txs.drop_first(), j - 1);
    }
}

/// Extending the processed prefix by one transaction appends exactly that
/// transaction's staging sequence.
proof fn lemma_txs_ops_take_step(height: u64, timestamp: u32, txs: Seq<TransactionDataV>, i: int)
    requires
        0 <= i < txs.len(),
    ensures
        txs_ops(height, timestamp, txs.take(i + 1)) =~= txs_ops(height, timestamp, txs.take(i))
            + transaction_ops(height, timestamp, txs[i]),
    decreases i,
{
    if i == 0 {
        assert(txs.take(1).drop_first() =~= Seq::<TransactionDataV>::empty());
        assert(txs.take(0) =~= Seq::<TransactionDataV>::empty());
        assert(txs.take(1)[0] == txs[0]);
    } else {
        lemma_txs_ops_take_step(height, timestamp, txs.drop_first(), i - 1);
        assert(txs.take(i + 1).drop_first() =~= txs.drop_first().take(i));
        assert(txs.take(i).drop_first() =~= txs.drop_first().take(i - 1));
        assert(txs.take(i + 1)[0] == txs[0]);
        assert(txs.take(i)[0] == txs[0]);
        assert(txs.drop_first()[i - 1] == txs[i]);
    }
}

/// A well-formed transaction's canonical form carries a 32-byte
/// previous-output id in every input.
proof fn lemma_canonical_ids_len(timestamp: u32, tx: TransactionDataV)
    requires
        wf_transaction(tx),
    ensures
        wf_canonical_ids(canonical_view(timestamp, tx)),
{
    let cv = canonical_view(timestamp, tx);
    assert forall|k: int| 0 <= k < cv.inputs.len() implies (#[trigger] cv.inputs[k]).prev_txid.len()
        == 32 by {
        assert(cv.inputs[k] == input_view(tx.inputs[k]));
        assert(wf_input(tx.inputs[k]));
        assert(hex_bytes(tx.inputs[k].prev_txid_hash.skip(2)).len() == 32);
    }
}

/// Indexes one block: reconstructs, decodes and dispatches every
/// transaction in block order, and returns the block's complete staging
/// sequence.
///
/// Succeeds exactly when every transaction reconstructs; the result is
/// then [`block_ops`] of the block. On failure — a provider contract
/// violation — the error is that of the first malformed input encountered
/// and no staging sequence is produced, so nothing of the block can reach
/// the store.
#[verifier::loop_isolation(false)]
pub fn index_block(block: BlockData) -> (r: Result<Vec<StagingOp>, IndexError>)
    ensures
        r is Ok <==> wf_block(block@),
        r matches Ok(ops) ==> ops.deep_view() =~= block_ops(block@),
        r matches Err(e) ==> e == block_error(block@),
{
    let ghost bv = block@;
    let BlockData { height, timestamp, transactions } = block;
    let ghost txsv = bv.transactions;
    let mut txs = transactions;
    let mut ops: Vec<StagingOp> = Vec::new();
    let n = txs.len();
    let mut i: usize = 0;
    while i < n
        invariant
            n == txsv.len(),
            i <= n,
            txs.deep_view() =~= txsv.skip(i as int),
            txs@.len() == n - i,
            ops.deep_view() =~= txs_ops(height, timestamp, txsv.take(i as int)),
            forall|k: int| 0 <= k < i ==> wf_transaction(#[trigger] txsv[k]),
        decreases n - i,
    {
        let ghost pre_txs = txs@;
        let ghost pre_dv = txs.deep_view();
        let tx = txs.remove(0);
        proof {
            assert(tx.deep_view() == pre_dv[0]);
            assert(pre_dv[0] == txsv.skip(i as int)[0]);
            assert(txsv.skip(i as int)[0] == txsv[i as int]);
            assert forall|k: int| 0 <= k < txs@.len() implies txs.deep_view()[k] == txsv.skip(
                i + 1,
            )[k] by {
                assert(txs@[k] == pre_txs[k + 1]);
                assert(txs.deep_view()[k] == txs@[k].deep_view());
                assert(pre_txs[k + 1].deep_view() == pre_dv[k + 1]);
                assert(pre_dv[k + 1] == txsv.skip(i as int)[k + 1]);
                assert(txsv.skip(i as int)[k + 1] == txsv[i + 1 + k]);
                assert(txsv.skip(i + 1)[k] == txsv[i + 1 + k]);
            }
            assert(txs.deep_view() =~= txsv.skip(i + 1));
        }
        let ghost txv = txsv[i as int];
        let canonical = match reconstruct_transaction(timestamp, &tx) {
            Ok(c) => c,
            Err(e) => {
                proof {
                    assert(!wf_transaction(txv));
                    lemma_txs_error_at(txsv, i as int);
                    if wf_block(bv) {
                        assert(wf_transaction(bv.transactions[i as int]));
                    }
                    assert(!wf_block(bv));
                }
                return Err(e);
            },
        };
        proof {
            lemma_canonical_ids_len(timestamp, txv);
        }
        let artifact = decode_artifact(&canonical);
        let TransactionData { tx_index, tx_id, inputs, outputs } = tx;
        let ghost pre0 = ops@;
        let begin = StagingOp::BeginTransaction { height, tx_index, tx_id, timestamp };
        proof {
            assert(begin.deep_view() == begin_op(height, timestamp, txv));
        }
        ops.push(begin);
        proof {
            lemma_ops_deep_view_push(pre0, ops@, begin);
        }
        stage_artifact(artifact, inputs, outputs, &mut ops);
        let ghost pre1 = ops@;
        ops.push(StagingOp::EndTransaction);
        proof {
            lemma_ops_deep_view_push(pre1, ops@, StagingOp::EndTransaction);
            lemma_txs_ops_take_step(height, timestamp, txsv, i as int);
            assert(ops.deep_view() =~= txs_ops(height, timestamp, txsv.take(i as int))
                + transaction_ops(height, timestamp, txv));
            assert(ops.deep_view() =~= txs_ops(height, timestamp, txsv.take(i + 1)));
        }
        i = i + 1;
    }
    proof {
        assert(txsv.take(n as int) =~= txsv);
    }
    Ok(ops)
}

/// The subsequence of `ops` that opens or closes staging contexts, in
/// order.
pub open spec fn context_ops_of(ops: Seq<StagingOpV>) -> Seq<StagingOpV>
    decreases ops.len(),
{
    if ops.len() == 0 {
        seq![]
    } else if is_context_op(ops[0]) {
        seq![ops[0]] + context_ops_of(ops.drop_first())
    } else {
        context_ops_of(ops.drop_first())
    }
}

/// The context subsequence distributes over concatenation.
proof fn lemma_context_ops_add(a: Seq<StagingOpV>, b: Seq<StagingOpV>)
    ensures
        context_ops_of(a + b) =~= context_ops_of(a) + context_ops_of(b),
    decreases a.len(),
{
    if a.len() == 0 {
        assert(a + b =~= b);
        assert(context_ops_of(a) =~= Seq::<StagingOpV>::empty());
    } else {
        assert((a + b).drop_first() =~= a.drop_first() + b);
        assert((a + b)[0] == a[0]);
        lemma_context_ops_add(a.drop_first(), b);
    }
}

/// A sequence without context commands has an empty context subsequence.
proof fn lemma_context_ops_none(ops: Seq<StagingOpV>)
    requires
        forall|j: int| 0 <= j < ops.len() ==> !is_context_op(#[trigger] ops[j]),
    ensures
        context_ops_of(ops) =~= Seq::<StagingOpV>::empty(),
    decreases ops.len(),
{
    if ops.len() > 0 {
        assert(!is_context_op(ops[0]));
        assert forall|j: int| 0 <= j < ops.drop_first().len() implies !is_context_op(
            #[trigger] ops.drop_first()[j],
        ) by {
            assert(ops.drop_first()[j] == ops[j + 1]);
        }
        lemma_context_ops_none(ops.drop_first());
    }
}

/// The matched begin/end pairs a block's transactions are expected to
/// stage, in block order.
pub open spec fn expected_context_ops(height: u64, timestamp: u32, txs: Seq<TransactionDataV>) -> Seq<
    StagingOpV,
>
    decreases txs.len(),
{
    if txs.len() == 0 {
        seq![]
    } else {
        seq![begin_op(height, timestamp, txs[0]), StagingOpV::EndTransaction]
            + expected_context_ops(height, timestamp, txs.drop_first())
    }
}

/// One transaction's staging sequence is one matched begin/end pair: it
/// opens with that transaction's begin command, closes with the end
/// command, and no command in between touches the context.
pub proof fn lemma_staging_context_paired(height: u64, timestamp: u32, tx: TransactionDataV)
    ensures
        ({
            let ops = transaction_ops(height, timestamp, tx);
            &&& ops.len() >= 2
            &&& ops[0] == begin_op(height, timestamp, tx)
            &&& ops[ops.len() - 1] == StagingOpV::EndTransaction
            &&& forall|j: int| 0 < j < ops.len() - 1 ==> !is_context_op(#[trigger] ops[j])
        }),
{
    let middle = dispatch_ops(decipher_of(canonical_view(timestamp, tx)), tx.inputs, tx.outputs);
    crate::dispatch::lemma_dispatch_no_context(
        decipher_of(canonical_view(timestamp, tx)),
        tx.inputs,
        tx.outputs,
    );
    let ops = transaction_ops(height, timestamp, tx);
    assert forall|j: int| 0 < j < ops.len() - 1 implies !is_context_op(#[trigger] ops[j]) by {
        assert(ops[j] == middle[j - 1]);
    }
}

/// One transaction's context subsequence is exactly its begin/end pair.
proof fn lemma_transaction_context_ops(height: u64, timestamp: u32, tx: TransactionDataV)
    ensures
        context_ops_of(transaction_ops(height, timestamp, tx)) =~= seq![
            begin_op(height, timestamp, tx),
            StagingOpV::EndTransaction,
        ],
{
    let middle = dispatch_ops(decipher_of(canonical_view(timestamp, tx)), tx.inputs, tx.outputs);
    crate::dispatch::lemma_dispatch_no_context(
        decipher_of(canonical_view(timestamp, tx)),
        tx.inputs,
        tx.outputs,
    );
    lemma_context_ops_none(middle);
    lemma_context_ops_add(seq![begin_op(height, timestamp, tx)] + middle, seq![
        StagingOpV::EndTransaction,
    ]);
    lemma_context_ops_add(seq![begin_op(height, timestamp, tx)], middle);
    let b = seq![begin_op(height, timestamp, tx)];
    let e = seq![StagingOpV::EndTransaction];
    assert(b.drop_first() =~= Seq::<StagingOpV>::empty());
    assert(e.drop_first() =~= Seq::<StagingOpV>::empty());
    assert(context_ops_of(Seq::<StagingOpV>::empty()) =~= Seq::<StagingOpV>::empty());
    assert(context_ops_of(b) =~= b);
    assert(context_ops_of(e) =~= e);
}

/// A block with N transactions stages exactly N matched begin/end
/// context pairs, issued in block order: the context subsequence of the
/// block's staging sequence is precisely the expected pairs, one per
/// transaction, each begin keyed by its transaction.
pub proof fn lemma_block_context_pairing(b: BlockDataV)
    ensures
        context_ops_of(block_ops(b)) =~= expected_context_ops(b.height, b.timestamp, b.transactions),
        context_ops_of(block_ops(b)).len() == 2 * b.transactions.len(),
{
    lemma_txs_context_pairing(b.height, b.timestamp, b.transactions);
    lemma_expected_context_ops_len(b.height, b.timestamp, b.transactions);
}

/// A block of N transactions is expected to stage exactly N pairs.
proof fn lemma_expected_context_ops_len(height: u64, timestamp: u32, txs: Seq<TransactionDataV>)
    ensures
        expected_context_ops(height, timestamp, txs).len() == 2 * txs.len(),
    decreases txs.len(),
{
    if txs.len() > 0 {
        lemma_expected_context_ops_len(height, timestamp, txs.drop_first());
    }
}

/// Induction core of [`lemma_block_context_pairing`].
proof fn lemma_txs_context_pairing(height: u64, timestamp: u32, txs: Seq<TransactionDataV>)
    ensures
        context_ops_of(txs_ops(height, timestamp, txs)) =~= expected_context_ops(
            height,
            timestamp,
            txs,
        ),
    decreases txs.len(),
{
    if txs.len() == 0 {
    } else {
        lemma_context_ops_add(
            transaction_ops(height, timestamp, txs[0]),
            txs_ops(height, timestamp, txs.drop_first()),
        );
        lemma_transaction_context_ops(height, timestamp, txs[0]);
        lemma_txs_context_pairing(height, timestamp, txs.drop_first());
    }
}

/// A transaction with no decodable artifact stages nothing beyond its
/// begin/end pair.
pub proof fn lemma_no_artifact_only_context(height: u64, timestamp: u32, tx: TransactionDataV)
    requires
        decipher_of(canonical_view(timestamp, tx)) is None,
    ensures
        transaction_ops(height, timestamp, tx) =~= seq![
            begin_op(height, timestamp, tx),
            StagingOpV::EndTransaction,
        ],
{
}

} // verus!
