//! Transaction reconstruction.
//!
//! The protocol decoder requires a canonical transaction; the provider
//! supplies a richer representation. Reconstruction follows a fixed policy:
//! the version is always 2, the lock time is derived from the block's
//! timestamp, each input's previous-output id is the byte-reversed decoding
//! of its hash string after the two-character prefix, the unlocking script
//! is the decoding of its hex string after the same prefix, and the witness
//! is always empty. Input and output order mirrors the provider's order.
//!
//! A malformed hash or script string (wrong length or a non-hexadecimal
//! character) is a fatal contract violation by the provider and aborts the
//! reconstruction.

use vstd::prelude::*;

use crate::IndexError;
use crate::data::{
    CanonicalInput, CanonicalInputV, CanonicalOutput, CanonicalOutputV, CanonicalTransaction,
    CanonicalTransactionV, TransactionData, TransactionDataV, TxInputData, TxInputDataV,
    TxOutputDataV,
};
use crate::hex::{all_hex, decode_hex_from, hex_bytes};

verus! {

/// The version every reconstructed transaction carries; the provider's
/// original version is discarded.
pub const CANONICAL_TX_VERSION: i32 = 2;

/// A well-formed previous-output hash: a two-character prefix followed by
/// exactly 64 hexadecimal characters.
pub open spec fn wf_txid_hash(s: Seq<char>) -> bool {
    s.len() == 66 && all_hex(s.skip(2))
}

/// A well-formed unlocking-script string: a two-character prefix followed
/// by an even number of hexadecimal characters.
pub open spec fn wf_script_hex(s: Seq<char>) -> bool {
    s.len() >= 2 && (s.len() - 2) % 2 == 0 && all_hex(s.skip(2))
}

/// A provider input whose strings reconstruct without error.
pub open spec fn wf_input(i: TxInputDataV) -> bool {
    wf_txid_hash(i.prev_txid_hash) && wf_script_hex(i.script_sig_hex)
}

/// A provider transaction whose every input reconstructs without error.
pub open spec fn wf_transaction(t: TransactionDataV) -> bool {
    forall|k: int| 0 <= k < t.inputs.len() ==> wf_input(#[trigger] t.inputs[k])
}

/// `b` with its bytes in reverse order.
pub open spec fn reversed(b: Seq<u8>) -> Seq<u8> {
    Seq::new(b.len(), |i: int| b[b.len() - 1 - i])
}

/// Reversal is an involution: no information is lost by the byte-order
/// transform applied to previous-output ids.
pub proof fn lemma_reversed_involution(b: Seq<u8>)
    ensures
        reversed(reversed(b)) =~= b,
{
}

/// The canonical input reconstructed from the provider input `i`.
pub open spec fn input_view(i: TxInputDataV) -> CanonicalInputV {
    CanonicalInputV {
        prev_txid: reversed(hex_bytes(i.prev_txid_hash.skip(2))),
        prev_vout: i.prev_vout,
        script_sig: hex_bytes(i.script_sig_hex.skip(2)),
        sequence: i.sequence,
    }
}

/// The canonical output reconstructed from the provider output `o`: value
/// and locking-script bytes are copied verbatim.
pub open spec fn output_view(o: TxOutputDataV) -> CanonicalOutputV {
    CanonicalOutputV { value: o.value, script_pubkey: o.script_pubkey }
}

/// The canonical inputs reconstructed from the provider inputs `s`, in
/// order.
pub open spec fn input_views(s: Seq<TxInputDataV>) -> Seq<CanonicalInputV> {
    s.map_values(|i: TxInputDataV| input_view(i))
}

/// The canonical outputs reconstructed from the provider outputs `s`, in
/// order.
pub open spec fn output_views(s: Seq<TxOutputDataV>) -> Seq<CanonicalOutputV> {
    s.map_values(|o: TxOutputDataV| output_view(o))
}

/// The canonical transaction reconstructed from the provider transaction
/// `t` inside a block whose timestamp is `timestamp`.
pub open spec fn canonical_view(timestamp: u32, t: TransactionDataV) -> CanonicalTransactionV {
    CanonicalTransactionV {
        version: CANONICAL_TX_VERSION,
        lock_time: timestamp,
        inputs: input_views(t.inputs),
        outputs: output_views(t.outputs),
    }
}

/// The error reported for the (malformed) provider input `i`: the hash is
/// examined before the script.
pub open spec fn input_error(i: TxInputDataV) -> IndexError {
    if !wf_txid_hash(i.prev_txid_hash) {
        IndexError::MalformedTxidHash
    } else {
        IndexError::MalformedScriptHex
    }
}

/// The error reported for the first malformed input of `inputs`.
pub open spec fn inputs_error(inputs: Seq<TxInputDataV>) -> IndexError
    recommends
        exists|k: int| 0 <= k < inputs.len() && !wf_input(#[trigger] inputs[k]),
    decreases inputs.len(),
{
    if inputs.len() == 0 {
        IndexError::MalformedTxidHash
    } else if !wf_input(inputs[0]) {
        input_error(inputs[0])
    } else {
        inputs_error(inputs.drop_first())
    }
}

/// If `j` is the first malformed index, `inputs_error` reports its error.
pub proof fn lemma_inputs_error_at(inputs: Seq<TxInputDataV>, j: int)
    requires
        0 <= j < inputs.len(),
        !wf_input(inputs[j]),
        forall|k: int| 0 <= k < j ==> wf_input(#[trigger] inputs[k]),
    ensures
        inputs_error(inputs) == input_error(inputs[j]),
    decreases j,
{
    if j > 0 {
        lemma_inputs_error_at(inputs.drop_first(), j - 1);
    }
}

/// Reconstruction round-trip. For a well-formed provider input, the
/// reconstructed previous-output id and index carry the provider's values
/// exactly: the index and sequence verbatim, the id as the byte-reversed
/// decoding of the hash digits — undoing the byte-order transform gives
/// the decoded digits back, and re-encoding them reproduces the hash's
/// digits whenever they are in canonical lowercase. Beyond the declared
/// lock-time, version and witness substitutions, nothing is lost.
pub proof fn lemma_reconstruction_round_trip(i: TxInputDataV)
    requires
        wf_input(i),
    ensures
        input_view(i).prev_vout == i.prev_vout,
        input_view(i).sequence == i.sequence,
        input_view(i).prev_txid.len() == 32,
        reversed(input_view(i).prev_txid) =~= hex_bytes(i.prev_txid_hash.skip(2)),
        (forall|k: int|
            0 <= k < 64 ==> crate::hex::is_lower_hex_digit(#[trigger] i.prev_txid_hash.skip(2)[k]))
            ==> crate::hex::hex_of_bytes(reversed(input_view(i).prev_txid))
            =~= i.prev_txid_hash.skip(2),
        input_view(i).script_sig =~= hex_bytes(i.script_sig_hex.skip(2)),
{
    let digits = i.prev_txid_hash.skip(2);
    lemma_reversed_involution(hex_bytes(digits));
    if forall|k: int|
        0 <= k < 64 ==> crate::hex::is_lower_hex_digit(#[trigger] i.prev_txid_hash.skip(2)[k]) {
        crate::hex::lemma_hex_canonical(digits);
    }
}

/// The bytes of `b` in reverse order.
pub fn reverse_bytes(b: &Vec<u8>) -> (r: Vec<u8>)
    ensures
        r@ == reversed(b@),
{
    let mut out: Vec<u8> = Vec::new();
    let n = b.len();
    let mut i: usize = 0;
    while i < n
        invariant
            n == b@.len(),
            i <= n,
            out@ =~= reversed(b@).take(i as int),
        decreases n - i,
    {
        out.push(b[n - 1 - i]);
        i = i + 1;
    }
    proof {
        assert(out@ =~= reversed(b@));
    }
    out
}

/// Reconstructs one canonical input from the provider input `input`.
///
/// Succeeds exactly when both strings are well-formed; the result is then
/// the documented transform of the provider's values. A malformed hash is
/// reported before a malformed script.
pub fn reconstruct_input(input: &TxInputData) -> (r: Result<CanonicalInput, IndexError>)
    ensures
        r is Ok <==> wf_input(input@),
        r matches Ok(c) ==> c@ == input_view(input@),
        r matches Err(e) ==> e == input_error(input@),
{
    let hash = input.prev_txid_hash.as_str();
    if hash.unicode_len() != 66 {
        return Err(IndexError::MalformedTxidHash);
    }
    let id_bytes = match decode_hex_from(hash, 2) {
        Some(b) => b,
        None => {
            return Err(IndexError::MalformedTxidHash);
        },
    };
    let prev_txid = reverse_bytes(&id_bytes);
    let script = input.script_sig_hex.as_str();
    if script.unicode_len() < 2 {
        return Err(IndexError::MalformedScriptHex);
    }
    let script_sig = match decode_hex_from(script, 2) {
        Some(b) => b,
        None => {
            return Err(IndexError::MalformedScriptHex);
        },
    };
    Ok(
        CanonicalInput {
            prev_txid,
            prev_vout: input.prev_vout,
            script_sig,
            sequence: input.sequence,
        },
    )
}

/// Reconstructs the canonical form of the provider transaction `tx` inside
/// a block whose timestamp is `timestamp`.
///
/// Succeeds exactly when every input is well-formed; the result is then
/// [`canonical_view`] of the provider data. On failure the error is that of
/// the first malformed input.
pub fn reconstruct_transaction(timestamp: u32, tx: &TransactionData) -> (r: Result<
    CanonicalTransaction,
    IndexError,
>)
    ensures
        r is Ok <==> wf_transaction(tx.deep_view()),
        r matches Ok(c) ==> c.deep_view() =~~= canonical_view(timestamp, tx.deep_view()),
        r matches Err(e) ==> e == inputs_error(tx.deep_view().inputs),
{
    let ghost txv = tx.deep_view();
    let mut inputs: Vec<CanonicalInput> = Vec::new();
    let n = tx.inputs.len();
    let mut i: usize = 0;
    while i < n
        invariant
            n == tx.inputs.len(),
            i <= n,
            txv == tx.deep_view(),
            txv.inputs.len() == n,
            inputs@.len() == i,
            forall|k: int| 0 <= k < i ==> wf_input(#[trigger] txv.inputs[k]),
            inputs.deep_view() =~= input_views(txv.inputs.take(i as int)),
        decreases n - i,
    {
        proof {
            assert(txv.inputs[i as int] == tx.inputs[i as int]@);
        }
        match reconstruct_input(&tx.inputs[i]) {
            Ok(c) => {
                let ghost pre = inputs@;
                let ghost pre_dv = inputs.deep_view();
                inputs.push(c);
                proof {
                    let cur = input_views(txv.inputs.take(i + 1));
                    assert forall|k: int| 0 <= k < i + 1 implies inputs.deep_view()[k] == cur[k] by {
                        assert(cur[k] == input_view(txv.inputs.take(i + 1)[k]));
                        assert(txv.inputs.take(i + 1)[k] == txv.inputs[k]);
                        assert(inputs.deep_view()[k] == inputs@[k].deep_view());
                        if k < i {
                            assert(inputs@[k] == pre[k]);
                            assert(pre[k].deep_view() == pre_dv[k]);
                            assert(pre_dv[k] == input_views(txv.inputs.take(i as int))[k]);
                            assert(input_views(txv.inputs.take(i as int))[k] == input_view(
                                txv.inputs.take(i as int)[k],
                            ));
                        } else {
                            assert(inputs@[k] == c);
                        }
                    }
                    assert(inputs.deep_view() =~= cur);
                }
            },
            Err(e) => {
                proof {
                    lemma_inputs_error_at(txv.inputs, i as int);
                }
                return Err(e);
            },
        }
        i = i + 1;
    }
    let mut outputs: Vec<CanonicalOutput> = Vec::new();
    let m = tx.outputs.len();
    let mut j: usize = 0;
    while j < m
        invariant
            m == tx.outputs.len(),
            j <= m,
            txv == tx.deep_view(),
            txv.outputs.len() == m,
            outputs@.len() == j,
            outputs.deep_view() =~= output_views(txv.outputs.take(j as int)),
        decreases m - j,
    {
        proof {
            assert(txv.outputs[j as int] == tx.outputs[j as int]@);
        }
        let script_pubkey = copy_bytes(&tx.outputs[j].script_pubkey);
        let ghost pre = outputs@;
        let ghost pre_dv = outputs.deep_view();
        let out = CanonicalOutput { value: tx.outputs[j].value, script_pubkey };
        proof {
            assert(out.deep_view() =~= output_view(txv.outputs[j as int]));
        }
        outputs.push(out);
        proof {
            let cur = output_views(txv.outputs.take(j + 1));
            assert forall|k: int| 0 <= k < j + 1 implies outputs.deep_view()[k] == cur[k] by {
                assert(cur[k] == output_view(txv.outputs.take(j + 1)[k]));
                assert(txv.outputs.take(j + 1)[k] == txv.outputs[k]);
                assert(outputs.deep_view()[k] == outputs@[k].deep_view());
                if k < j {
                    assert(outputs@[k] == pre[k]);
                    assert(pre[k].deep_view() == pre_dv[k]);
                    assert(pre_dv[k] == output_views(txv.outputs.take(j as int))[k]);
                    assert(output_views(txv.outputs.take(j as int))[k] == output_view(
                        txv.outputs.take(j as int)[k],
                    ));
                } else {
                    assert(outputs@[k] == out);
                }
            }
            assert(outputs.deep_view() =~= cur);
        }
        j = j + 1;
    }
    proof {
        assert(txv.inputs.take(n as int) =~= txv.inputs);
        assert(txv.outputs.take(m as int) =~= txv.outputs);
    }
    Ok(
        CanonicalTransaction {
            version: CANONICAL_TX_VERSION,
            lock_time: timestamp,
            inputs,
            outputs,
        },
    )
}

/// A fresh copy of the byte vector `b`.
pub fn copy_bytes(b: &Vec<u8>) -> (r: Vec<u8>)
    ensures
        r@ == b@,
{
    let mut out: Vec<u8> = Vec::new();
    let n = b.len();
    let mut i: usize = 0;
    while i < n
        invariant
            n == b@.len(),
            i <= n,
            out@ =~= b@.take(i as int),
        decreases n - i,
    {
        out.push(b[i]);
        i = i + 1;
    }
    proof {
        assert(out@ =~= b@);
    }
    out
}

} // verus!
