//! Mutation dispatch.
//!
//! The ledger cache consumes mutations as an ordered sequence of staging
//! commands. Order is semantically load-bearing: mint and edict application
//! order determines cumulative rune balances. This module defines the
//! command alphabet ([`StagingOp`]) and the exact sequence each decoded
//! artifact stages: for a runestone the generic effects, then its etching
//! (if present), then its mint (if present), then every edict in array
//! order; for a cenotaph the generic effects, then its etching and mint —
//! never an edict.

use vstd::prelude::*;

use ordinals::{Artifact, Cenotaph, Edict, Etching, Rune, RuneId};

use crate::data::{TxInputData, TxInputDataV, TxOutputData, TxOutputDataV};
use crate::decode::{ArtifactV, RunestoneV, opt_artifact_view, runestone_view};

verus! {

/// One staging command against the ledger cache, scoped to the
/// mutation-staging context opened by the enclosing `BeginTransaction`.
#[derive(Debug, PartialEq)]
pub enum StagingOp {
    /// Opens the mutation-staging context for one transaction.
    BeginTransaction { height: u64, tx_index: u32, tx_id: String, timestamp: u32 },
    /// Stages the generic effects of a runestone, with the provider's raw
    /// inputs and outputs.
    ApplyRunestone {
        runestone: ordinals::Runestone,
        inputs: Vec<TxInputData>,
        outputs: Vec<TxOutputData>,
    },
    /// Stages an etching carried by a runestone.
    ApplyEtching { etching: Etching },
    /// Stages a mint carried by a runestone.
    ApplyMint { rune_id: RuneId },
    /// Stages one edict carried by a runestone.
    ApplyEdict { edict: Edict },
    /// Stages the generic effects of a cenotaph, with the provider's raw
    /// inputs.
    ApplyCenotaph { cenotaph: Cenotaph, inputs: Vec<TxInputData> },
    /// Stages the etching carried by a cenotaph.
    ApplyCenotaphEtching { rune: Rune },
    /// Stages the mint carried by a cenotaph.
    ApplyCenotaphMint { rune_id: RuneId },
    /// Closes the current mutation-staging context.
    EndTransaction,
}

/// Mathematical view of [`StagingOp`].
#[verifier::ext_equal]
pub enum StagingOpV {
    BeginTransaction { height: u64, tx_index: u32, tx_id: Seq<char>, timestamp: u32 },
    ApplyRunestone {
        runestone: RunestoneV,
        inputs: Seq<TxInputDataV>,
        outputs: Seq<TxOutputDataV>,
    },
    ApplyEtching { etching: Etching },
    ApplyMint { rune_id: RuneId },
    ApplyEdict { edict: Edict },
    ApplyCenotaph { cenotaph: Cenotaph, inputs: Seq<TxInputDataV> },
    ApplyCenotaphEtching { rune: Rune },
    ApplyCenotaphMint { rune_id: RuneId },
    EndTransaction,
}

impl View for StagingOp {
    type V = StagingOpV;

    open spec fn view(&self) -> StagingOpV {
        match self {
            StagingOp::BeginTransaction { height, tx_index, tx_id, timestamp } => (
                StagingOpV::BeginTransaction {
                    height: *height,
                    tx_index: *tx_index,
                    tx_id: tx_id@,
                    timestamp: *timestamp,
                }
            ),
            StagingOp::ApplyRunestone { runestone, inputs, outputs } => (
                StagingOpV::ApplyRunestone {
                    runestone: runestone_view(*runestone),
                    inputs: inputs.deep_view(),
                    outputs: outputs.deep_view(),
                }
            ),
            StagingOp::ApplyEtching { etching } => StagingOpV::ApplyEtching { etching: *etching },
            StagingOp::ApplyMint { rune_id } => StagingOpV::ApplyMint { rune_id: *rune_id },
            StagingOp::ApplyEdict { edict } => StagingOpV::ApplyEdict { edict: *edict },
            StagingOp::ApplyCenotaph { cenotaph, inputs } => (
                StagingOpV::ApplyCenotaph { cenotaph: *cenotaph, inputs: inputs.deep_view() }
            ),
            StagingOp::ApplyCenotaphEtching { rune } => (
                StagingOpV::ApplyCenotaphEtching { rune: *rune }
            ),
            StagingOp::ApplyCenotaphMint { rune_id } => (
                StagingOpV::ApplyCenotaphMint { rune_id: *rune_id }
            ),
            StagingOp::EndTransaction => StagingOpV::EndTransaction,
        }
    }
}

impl DeepView for StagingOp {
    type V = StagingOpV;

    open spec fn deep_view(&self) -> StagingOpV {
        self.view()
    }
}

/// The staging sequence for a runestone: its generic effects first, then
/// its etching if present, then its mint if present, then its edicts in
/// array order.
pub open spec fn runestone_ops(
    r: RunestoneV,
    inputs: Seq<TxInputDataV>,
    outputs: Seq<TxOutputDataV>,
) -> Seq<StagingOpV> {
    seq![StagingOpV::ApplyRunestone { runestone: r, inputs, outputs }] + (match r.etching {
        Some(e) => seq![StagingOpV::ApplyEtching { etching: e }],
        None => seq![],
    }) + (match r.mint {
        Some(m) => seq![StagingOpV::ApplyMint { rune_id: m }],
        None => seq![],
    }) + Seq::new(r.edicts.len(), |k: int| StagingOpV::ApplyEdict { edict: r.edicts[k] })
}

/// The staging sequence for a cenotaph: its generic effects first, then
/// its etching if present, then its mint if present. Cenotaphs carry no
/// edicts.
pub open spec fn cenotaph_ops(c: Cenotaph, inputs: Seq<TxInputDataV>) -> Seq<StagingOpV> {
    seq![StagingOpV::ApplyCenotaph { cenotaph: c, inputs }] + (match c.etching {
        Some(r) => seq![StagingOpV::ApplyCenotaphEtching { rune: r }],
        None => seq![],
    }) + (match c.mint {
        Some(m) => seq![StagingOpV::ApplyCenotaphMint { rune_id: m }],
        None => seq![],
    })
}

/// The staging sequence one decoded artifact causes: nothing for a
/// transaction without a protocol payload.
pub open spec fn dispatch_ops(
    artifact: Option<ArtifactV>,
    inputs: Seq<TxInputDataV>,
    outputs: Seq<TxOutputDataV>,
) -> Seq<StagingOpV> {
    match artifact {
        None => seq![],
        Some(ArtifactV::Runestone(r)) => runestone_ops(r, inputs, outputs),
        Some(ArtifactV::Cenotaph(c)) => cenotaph_ops(c, inputs),
    }
}

/// Appending one command extends the staged sequence's view by that
/// command's view.
pub proof fn lemma_ops_deep_view_push(pre: Seq<StagingOp>, post: Seq<StagingOp>, x: StagingOp)
    requires
        post == pre.push(x),
    ensures
        Seq::new(post.len(), |i: int| post[i].deep_view()) =~= Seq::new(
            pre.len(),
            |i: int| pre[i].deep_view(),
        ).push(x.deep_view()),
{
    let a = Seq::new(post.len(), |i: int| post[i].deep_view());
    let b = Seq::new(pre.len(), |i: int| pre[i].deep_view()).push(x.deep_view());
    assert forall|i: int| 0 <= i < a.len() implies a[i] == b[i] by {
        if i < pre.len() {
            assert(post[i] == pre[i]);
        } else {
            assert(post[i] == x);
        }
    }
}

/// Stages the commands caused by one decoded artifact, appending them to
/// `ops` in the exact dispatch order.
pub fn stage_artifact(
    artifact: Option<Artifact>,
    inputs: Vec<TxInputData>,
    outputs: Vec<TxOutputData>,
    ops: &mut Vec<StagingOp>,
)
    ensures
        final(ops).deep_view() =~= old(ops).deep_view() + dispatch_ops(
            opt_artifact_view(artifact),
            inputs.deep_view(),
            outputs.deep_view(),
        ),
{
    let ghost base = ops.deep_view();
    let ghost iv = inputs.deep_view();
    let ghost ov = outputs.deep_view();
    match artifact {
        None => {},
        Some(Artifact::Runestone(r)) => {
            let ghost rv = runestone_view(r);
            let etching = r.etching;
            let mint = r.mint;
            let mut edicts: Vec<Edict> = Vec::new();
            let n = r.edicts.len();
            let mut k: usize = 0;
            while k < n
                invariant
                    n == r.edicts@.len(),
                    k <= n,
                    edicts@ =~= r.edicts@.take(k as int),
                decreases n - k,
            {
                edicts.push(r.edicts[k]);
                k = k + 1;
            }
            proof {
                assert(edicts@ =~= rv.edicts);
            }
            let ghost pre0 = ops@;
            ops.push(StagingOp::ApplyRunestone { runestone: r, inputs, outputs });
            proof {
                lemma_ops_deep_view_push(
                    pre0,
                    ops@,
                    StagingOp::ApplyRunestone { runestone: r, inputs, outputs },
                );
            }
            if let Some(e) = etching {
                let ghost pre1 = ops@;
                ops.push(StagingOp::ApplyEtching { etching: e });
                proof {
                    lemma_ops_deep_view_push(pre1, ops@, StagingOp::ApplyEtching { etching: e });
                }
            }
            if let Some(m) = mint {
                let ghost pre2 = ops@;
                ops.push(StagingOp::ApplyMint { rune_id: m });
                proof {
                    lemma_ops_deep_view_push(pre2, ops@, StagingOp::ApplyMint { rune_id: m });
                }
            }
            let ghost mid = ops.deep_view();
            proof {
                assert(mid =~= base + seq![
                    StagingOpV::ApplyRunestone { runestone: rv, inputs: iv, outputs: ov },
                ] + (match rv.etching {
                    Some(e) => seq![StagingOpV::ApplyEtching { etching: e }],
                    None => seq![],
                }) + (match rv.mint {
                    Some(m) => seq![StagingOpV::ApplyMint { rune_id: m }],
                    None => seq![],
                }));
            }
            let mut t: usize = 0;
            let nt = edicts.len();
            while t < nt
                invariant
                    nt == edicts@.len(),
                    t <= nt,
                    ops.deep_view() =~= mid + Seq::new(
                        t as nat,
                        |q: int| StagingOpV::ApplyEdict { edict: edicts@[q] },
                    ),
                decreases nt - t,
            {
                let ghost pre3 = ops@;
                ops.push(StagingOp::ApplyEdict { edict: edicts[t] });
                proof {
                    lemma_ops_deep_view_push(
                        pre3,
                        ops@,
                        StagingOp::ApplyEdict { edict: edicts@[t as int] },
                    );
                }
                t = t + 1;
            }
            proof {
                assert(Seq::new(
                    nt as nat,
                    |q: int| StagingOpV::ApplyEdict { edict: edicts@[q] },
                ) =~= Seq::new(rv.edicts.len(), |q: int| StagingOpV::ApplyEdict {
                    edict: rv.edicts[q],
                }));
                assert(ops.deep_view() =~= base + runestone_ops(rv, iv, ov));
            }
        },
        Some(Artifact::Cenotaph(c)) => {
            let etching = c.etching;
            let mint = c.mint;
            let ghost pre0 = ops@;
            ops.push(StagingOp::ApplyCenotaph { cenotaph: c, inputs });
            proof {
                lemma_ops_deep_view_push(
                    pre0,
                    ops@,
                    StagingOp::ApplyCenotaph { cenotaph: c, inputs },
                );
            }
            if let Some(r) = etching {
                let ghost pre1 = ops@;
                ops.push(StagingOp::ApplyCenotaphEtching { rune: r });
                proof {
                    lemma_ops_deep_view_push(
                        pre1,
                        ops@,
                        StagingOp::ApplyCenotaphEtching { rune: r },
                    );
                }
            }
            if let Some(m) = mint {
                let ghost pre2 = ops@;
                ops.push(StagingOp::ApplyCenotaphMint { rune_id: m });
                proof {
                    lemma_ops_deep_view_push(pre2, ops@, StagingOp::ApplyCenotaphMint { rune_id: m });
                }
            }
            proof {
                assert(ops.deep_view() =~= base + cenotaph_ops(c, iv));
            }
        },
    }
}

/// A runestone carrying an etching, a mint, and edicts stages, in exactly
/// this order: the generic runestone effects, the etching, the mint, then
/// each edict in array order.
pub proof fn lemma_runestone_staging_order(
    r: RunestoneV,
    e: Etching,
    m: RuneId,
    inputs: Seq<TxInputDataV>,
    outputs: Seq<TxOutputDataV>,
)
    requires
        r.etching == Some(e),
        r.mint == Some(m),
    ensures
        ({
            let ops = dispatch_ops(Some(ArtifactV::Runestone(r)), inputs, outputs);
            &&& ops.len() == 3 + r.edicts.len()
            &&& ops[0] == (StagingOpV::ApplyRunestone { runestone: r, inputs, outputs })
            &&& ops[1] == (StagingOpV::ApplyEtching { etching: e })
            &&& ops[2] == (StagingOpV::ApplyMint { rune_id: m })
            &&& forall|k: int|
                0 <= k < r.edicts.len() ==> ops[3 + k] == (StagingOpV::ApplyEdict {
                    edict: r.edicts[k],
                })
        }),
{
}

/// A cenotaph never causes an edict-staging command, under any input.
pub proof fn lemma_cenotaph_stages_no_edict(
    c: Cenotaph,
    inputs: Seq<TxInputDataV>,
    outputs: Seq<TxOutputDataV>,
)
    ensures
        ({
            let ops = dispatch_ops(Some(ArtifactV::Cenotaph(c)), inputs, outputs);
            forall|k: int| 0 <= k < ops.len() ==> !((#[trigger] ops[k]) is ApplyEdict)
        }),
{
}

/// A command that opens or closes a mutation-staging context.
pub open spec fn is_context_op(op: StagingOpV) -> bool {
    op is BeginTransaction || op is EndTransaction
}

/// Dispatch never opens or closes a staging context: every command an
/// artifact causes is a mutation against the current context.
pub proof fn lemma_dispatch_no_context(
    artifact: Option<ArtifactV>,
    inputs: Seq<TxInputDataV>,
    outputs: Seq<TxOutputDataV>,
)
    ensures
        ({
            let ops = dispatch_ops(artifact, inputs, outputs);
            forall|j: int| 0 <= j < ops.len() ==> !is_context_op(#[trigger] ops[j])
        }),
{
    let ops = dispatch_ops(artifact, inputs, outputs);
    assert forall|j: int| 0 <= j < ops.len() implies !is_context_op(#[trigger] ops[j]) by {
        match artifact {
            None => {},
            Some(ArtifactV::Runestone(r)) => {
                assert(ops == runestone_ops(r, inputs, outputs));
            },
            Some(ArtifactV::Cenotaph(c)) => {
                assert(ops == cenotaph_ops(c, inputs));
            },
        }
    }
}

} // verus!
