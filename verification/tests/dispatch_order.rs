use ordinals::{Artifact, Cenotaph, Edict, Etching, Rune, RuneId, Runestone};
use runes_index::data::{TxInputData, TxOutputData};
use runes_index::dispatch::{StagingOp, stage_artifact};

fn some_inputs() -> Vec<TxInputData> {
    vec![TxInputData {
        prev_txid_hash: format!("0x{}", "0".repeat(64)),
        prev_vout: 0,
        script_sig_hex: "0x".to_string(),
        sequence: 0,
    }]
}

fn some_outputs() -> Vec<TxOutputData> {
    vec![TxOutputData { value: 0, script_pubkey: vec![] }]
}

fn full_runestone() -> (Runestone, Etching, RuneId, Vec<Edict>) {
    let etching = Etching {
        divisibility: Some(2),
        premine: Some(1000),
        rune: Some(Rune(99)),
        spacers: None,
        symbol: Some('R'),
        terms: None,
        turbo: false,
    };
    let mint = RuneId { block: 840_000, tx: 1 };
    let edicts = vec![
        Edict { id: RuneId { block: 840_001, tx: 2 }, amount: 10, output: 0 },
        Edict { id: RuneId { block: 840_002, tx: 3 }, amount: 20, output: 1 },
    ];
    let runestone = Runestone {
        edicts: edicts.clone(),
        etching: Some(etching),
        mint: Some(mint),
        pointer: None,
    };
    (runestone, etching, mint, edicts)
}

#[test]
fn runestone_stages_in_protocol_order() {
    let (runestone, etching, mint, edicts) = full_runestone();
    let (expected, _, _, _) = full_runestone();
    let mut ops: Vec<StagingOp> = Vec::new();
    stage_artifact(
        Some(Artifact::Runestone(runestone)),
        some_inputs(),
        some_outputs(),
        &mut ops,
    );
    assert_eq!(ops.len(), 5);
    assert_eq!(
        ops[0],
        StagingOp::ApplyRunestone {
            runestone: expected,
            inputs: some_inputs(),
            outputs: some_outputs(),
        }
    );
    assert_eq!(ops[1], StagingOp::ApplyEtching { etching });
    assert_eq!(ops[2], StagingOp::ApplyMint { rune_id: mint });
    assert_eq!(ops[3], StagingOp::ApplyEdict { edict: edicts[0] });
    assert_eq!(ops[4], StagingOp::ApplyEdict { edict: edicts[1] });
}

#[test]
fn runestone_with_only_mint_stages_runestone_then_mint() {
    let runestone = Runestone {
        edicts: vec![],
        etching: None,
        mint: Some(RuneId { block: 840_000, tx: 1 }),
        pointer: None,
    };
    let mut ops: Vec<StagingOp> = Vec::new();
    stage_artifact(
        Some(Artifact::Runestone(runestone)),
        some_inputs(),
        some_outputs(),
        &mut ops,
    );
    assert_eq!(ops.len(), 2);
    assert!(matches!(ops[0], StagingOp::ApplyRunestone { .. }));
    assert_eq!(
        ops[1],
        StagingOp::ApplyMint { rune_id: RuneId { block: 840_000, tx: 1 } }
    );
}

#[test]
fn cenotaph_never_stages_an_edict() {
    let cenotaph = Cenotaph {
        etching: Some(Rune(7)),
        flaw: None,
        mint: Some(RuneId { block: 840_000, tx: 9 }),
    };
    let mut ops: Vec<StagingOp> = Vec::new();
    stage_artifact(
        Some(Artifact::Cenotaph(cenotaph)),
        some_inputs(),
        some_outputs(),
        &mut ops,
    );
    assert_eq!(ops.len(), 3);
    assert!(matches!(ops[0], StagingOp::ApplyCenotaph { .. }));
    assert_eq!(ops[1], StagingOp::ApplyCenotaphEtching { rune: Rune(7) });
    assert_eq!(
        ops[2],
        StagingOp::ApplyCenotaphMint { rune_id: RuneId { block: 840_000, tx: 9 } }
    );
    for op in &ops {
        assert!(!matches!(op, StagingOp::ApplyEdict { .. }));
    }
}

#[test]
fn cenotaph_without_payloads_stages_only_its_generic_effects() {
    let cenotaph = Cenotaph { etching: None, flaw: None, mint: None };
    let mut ops: Vec<StagingOp> = Vec::new();
    stage_artifact(
        Some(Artifact::Cenotaph(cenotaph)),
        some_inputs(),
        some_outputs(),
        &mut ops,
    );
    assert_eq!(ops.len(), 1);
    assert!(matches!(ops[0], StagingOp::ApplyCenotaph { .. }));
}

#[test]
fn no_artifact_stages_nothing() {
    let mut ops: Vec<StagingOp> = Vec::new();
    stage_artifact(None, some_inputs(), some_outputs(), &mut ops);
    assert!(ops.is_empty());
}
