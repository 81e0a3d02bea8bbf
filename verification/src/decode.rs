//! Protocol artifact decoding.
//!
//! The bit-level grammar that recognizes a Rune protocol message inside a
//! transaction's outputs belongs to the external decoder
//! (`ordinals::Runestone::decipher`), consumed here as a pure function of
//! the canonical transaction. This module declares the decoder's result
//! types to the verifier and wraps the decoding call behind a contract that
//! names its result ([`decipher_of`]).

use vstd::prelude::*;

use bitcoin::absolute::LockTime;
use bitcoin::transaction::Version;
use bitcoin::{Amount, OutPoint, ScriptBuf, Sequence, Transaction, TxIn, TxOut, Txid, Witness};
use ordinals::{Artifact, Cenotaph, Edict, Etching, Flaw, Rune, RuneId, Runestone, Terms};

use crate::data::{CanonicalTransaction, CanonicalTransactionV};

verus! {

/// Declares `ordinals::RuneId` — the (block height, transaction index)
/// pair identifying a rune's creation point — with its public fields
/// visible to the verifier.
#[verifier::external_type_specification]
pub struct ExRuneId(RuneId);

/// Declares `ordinals::Rune` — a rune name encoded as an integer — with its
/// public field visible to the verifier.
#[verifier::external_type_specification]
pub struct ExRune(Rune);

/// Declares `ordinals::Edict` — a transfer instruction (rune id, amount,
/// target output) — with its public fields visible to the verifier.
#[verifier::external_type_specification]
pub struct ExEdict(Edict);

/// Declares `ordinals::Terms` — the minting terms of an etching — with its
/// public fields visible to the verifier.
#[verifier::external_type_specification]
pub struct ExTerms(Terms);

/// Declares `ordinals::Etching` — the payload creating a new rune — with
/// its public fields visible to the verifier.
#[verifier::external_type_specification]
pub struct ExEtching(Etching);

/// Declares `ordinals::Flaw` — the reason a message was judged malformed —
/// with its variants visible to the verifier.
#[verifier::external_type_specification]
pub struct ExFlaw(Flaw);

/// Declares `ordinals::Runestone` — a well-formed protocol message — with
/// its public fields visible to the verifier.
#[verifier::external_type_specification]
pub struct ExRunestone(Runestone);

/// Declares `ordinals::Cenotaph` — a malformed protocol message with
/// reduced semantics — with its public fields visible to the verifier.
#[verifier::external_type_specification]
pub struct ExCenotaph(Cenotaph);

/// Declares `ordinals::Artifact` — the tagged decoding result — with its
/// variants visible to the verifier.
#[verifier::external_type_specification]
pub struct ExArtifact(Artifact);

/// Mathematical view of `ordinals::Runestone`.
#[verifier::ext_equal]
pub struct RunestoneV {
    pub edicts: Seq<Edict>,
    pub etching: Option<Etching>,
    pub mint: Option<RuneId>,
    pub pointer: Option<u32>,
}

/// Mathematical view of `ordinals::Artifact`. A cenotaph carries only
/// plain values and is its own view.
#[verifier::ext_equal]
pub enum ArtifactV {
    Runestone(RunestoneV),
    Cenotaph(Cenotaph),
}

/// The view of a runestone: its edicts as a sequence, everything else
/// verbatim.
pub open spec fn runestone_view(r: Runestone) -> RunestoneV {
    RunestoneV { edicts: r.edicts@, etching: r.etching, mint: r.mint, pointer: r.pointer }
}

/// The view of a decoded artifact.
pub open spec fn artifact_view(a: Artifact) -> ArtifactV {
    match a {
        Artifact::Runestone(r) => ArtifactV::Runestone(runestone_view(r)),
        Artifact::Cenotaph(c) => ArtifactV::Cenotaph(c),
    }
}

/// The view of an optional decoded artifact; `None` means the transaction
/// carries no protocol payload.
pub open spec fn opt_artifact_view(a: Option<Artifact>) -> Option<ArtifactV> {
    match a {
        Some(x) => Some(artifact_view(x)),
        None => None,
    }
}

/// The artifact the external decoder recognizes in a canonical
/// transaction. The decoder is a pure function of the transaction's
/// content, so its result is a function of the canonical view alone; the
/// grammar itself is out of scope and the result is therefore named, not
/// stated.
pub uninterp spec fn decipher_of(tx: CanonicalTransactionV) -> Option<ArtifactV>;

/// Every input's previous-output id holds exactly 32 bytes.
pub open spec fn wf_canonical_ids(tx: CanonicalTransactionV) -> bool {
    forall|k: int| 0 <= k < tx.inputs.len() ==> (#[trigger] tx.inputs[k]).prev_txid.len() == 32
}

/// Relies on `ordinals::Runestone::decipher`: a pure function of the
/// transaction's content (it inspects only the outputs' scripts and the
/// output count), so equal canonical transactions decode to equal
/// artifacts. The body converts the canonical transaction into the
/// decoder's `bitcoin::Transaction` shape field by field; the witness,
/// always empty in the canonical form, is supplied empty, and the
/// 32-byte id precondition makes the id conversion total.
#[verifier::external_body]
fn decipher_call(tx: &CanonicalTransaction) -> (r: Option<Artifact>)
    requires
        wf_canonical_ids(tx.deep_view()),
    ensures
        opt_artifact_view(r) == decipher_of(tx.deep_view()),
{
    let input = tx.inputs.iter().map(|i| TxIn {
        previous_output: OutPoint { txid: <Txid as bitcoin::hashes::Hash>::from_byte_array(i.prev_txid.clone().try_into().unwrap()), vout: i.prev_vout },
        script_sig: ScriptBuf::from_bytes(i.script_sig.clone()),
        sequence: Sequence(i.sequence),
        witness: Witness::new(),
    }).collect();
    let output = tx.outputs.iter().map(|o| TxOut {
        value: Amount::from_sat(o.value),
        script_pubkey: ScriptBuf::from_bytes(o.script_pubkey.clone()),
    }).collect();
    let version = Version(tx.version);
    let lock_time = LockTime::from_consensus(tx.lock_time);
    Runestone::decipher(&Transaction { version, lock_time, input, output })
}

/// Decodes the protocol artifact carried by the canonical transaction
/// `tx`, if any.
pub fn decode_artifact(tx: &CanonicalTransaction) -> (r: Option<Artifact>)
    requires
        wf_canonical_ids(tx.deep_view()),
    ensures
        opt_artifact_view(r) == decipher_of(tx.deep_view()),
{
    decipher_call(tx)
}

} // verus!
