use ordinals::{Artifact, RuneId, Runestone};
use runes_index::data::{BlockData, TransactionData, TxInputData, TxOutputData};
use runes_index::dispatch::StagingOp;
use runes_index::ingest::index_block;
use runes_index::IndexError;

fn plain_input() -> TxInputData {
    TxInputData {
        prev_txid_hash: format!("0x{}", "0".repeat(64)),
        prev_vout: 0,
        script_sig_hex: "0x".to_string(),
        sequence: 0xffffffff,
    }
}

fn plain_tx(index: u32, id: &str) -> TransactionData {
    TransactionData {
        tx_index: index,
        tx_id: id.to_string(),
        inputs: vec![plain_input()],
        outputs: vec![TxOutputData { value: 546, script_pubkey: vec![0x51] }],
    }
}

#[test]
fn empty_block_stages_nothing() {
    let block = BlockData { height: 840_000, timestamp: 1_700_000_000, transactions: vec![] };
    let ops = index_block(block).unwrap();
    assert!(ops.is_empty());
}

#[test]
fn every_transaction_gets_a_begin_end_pair_in_block_order() {
    let block = BlockData {
        height: 840_123,
        timestamp: 1_700_000_000,
        transactions: vec![plain_tx(0, "0xaa"), plain_tx(1, "0xbb"), plain_tx(2, "0xcc")],
    };
    let ops = index_block(block).unwrap();
    assert_eq!(ops.len(), 6);
    for k in 0..3u32 {
        let id = ["0xaa", "0xbb", "0xcc"][k as usize].to_string();
        assert_eq!(
            ops[2 * k as usize],
            StagingOp::BeginTransaction {
                height: 840_123,
                tx_index: k,
                tx_id: id,
                timestamp: 1_700_000_000,
            }
        );
        assert_eq!(ops[2 * k as usize + 1], StagingOp::EndTransaction);
    }
}

#[test]
fn runestone_transaction_stages_between_its_begin_and_end() {
    let runestone = Runestone {
        edicts: vec![],
        etching: None,
        mint: Some(RuneId { block: 840_000, tx: 1 }),
        pointer: None,
    };
    let script = runestone.encipher();
    let mut rune_tx = plain_tx(1, "0xbb");
    rune_tx.outputs.push(TxOutputData { value: 0, script_pubkey: script.into_bytes() });
    let block = BlockData {
        height: 840_500,
        timestamp: 1_700_000_123,
        transactions: vec![plain_tx(0, "0xaa"), rune_tx],
    };
    let ops = index_block(block).unwrap();
    assert_eq!(ops.len(), 6);
    assert!(matches!(ops[0], StagingOp::BeginTransaction { tx_index: 0, .. }));
    assert_eq!(ops[1], StagingOp::EndTransaction);
    assert!(matches!(ops[2], StagingOp::BeginTransaction { tx_index: 1, .. }));
    match &ops[3] {
        StagingOp::ApplyRunestone { runestone: staged, inputs, outputs } => {
            assert_eq!(staged, &runestone);
            assert_eq!(inputs.len(), 1);
            assert_eq!(outputs.len(), 2);
        }
        other => panic!("expected the generic runestone effects, got {:?}", other),
    }
    assert_eq!(
        ops[4],
        StagingOp::ApplyMint { rune_id: RuneId { block: 840_000, tx: 1 } }
    );
    assert_eq!(ops[5], StagingOp::EndTransaction);
}

#[test]
fn decoded_artifact_matches_the_external_decoder() {
    let runestone = Runestone {
        edicts: vec![],
        etching: None,
        mint: Some(RuneId { block: 840_000, tx: 1 }),
        pointer: None,
    };
    let script = runestone.encipher();
    let mut tx = plain_tx(0, "0xaa");
    tx.outputs.push(TxOutputData { value: 0, script_pubkey: script.clone().into_bytes() });
    let canonical =
        runes_index::reconstruct::reconstruct_transaction(1_700_000_000, &tx).unwrap();
    let artifact = runes_index::decode::decode_artifact(&canonical);
    assert_eq!(artifact, Some(Artifact::Runestone(runestone)));
}

#[test]
fn malformed_transaction_aborts_the_whole_block() {
    let mut bad = plain_tx(1, "0xbb");
    bad.inputs[0].prev_txid_hash = "0x1234".to_string();
    let block = BlockData {
        height: 840_001,
        timestamp: 1_700_000_000,
        transactions: vec![plain_tx(0, "0xaa"), bad],
    };
    assert_eq!(index_block(block), Err(IndexError::MalformedTxidHash));
}

#[test]
fn malformed_script_aborts_the_whole_block() {
    let mut bad = plain_tx(0, "0xaa");
    bad.inputs[0].script_sig_hex = "0xabc".to_string();
    let block = BlockData {
        height: 840_002,
        timestamp: 1_700_000_000,
        transactions: vec![bad],
    };
    assert_eq!(index_block(block), Err(IndexError::MalformedScriptHex));
}
