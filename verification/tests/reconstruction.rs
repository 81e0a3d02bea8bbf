use runes_index::IndexError;
use runes_index::data::{TransactionData, TxInputData, TxOutputData};
use runes_index::reconstruct::{reconstruct_input, reconstruct_transaction};

fn input(hash: &str, vout: u32, script: &str, sequence: u32) -> TxInputData {
    TxInputData {
        prev_txid_hash: hash.to_string(),
        prev_vout: vout,
        script_sig_hex: script.to_string(),
        sequence,
    }
}

#[test]
fn reconstructs_one_input_one_output_transaction() {
    let tx = TransactionData {
        tx_index: 0,
        tx_id: "0xdeadbeef".to_string(),
        inputs: vec![input(&format!("0x{}", "0".repeat(64)), 0, "0xab", 0xffffffff)],
        outputs: vec![TxOutputData { value: 5000, script_pubkey: vec![0xab] }],
    };
    let canonical = reconstruct_transaction(1_700_000_000, &tx).unwrap();
    assert_eq!(canonical.version, 2);
    assert_eq!(canonical.lock_time, 1_700_000_000);
    assert_eq!(canonical.inputs.len(), 1);
    assert_eq!(canonical.inputs[0].prev_txid, vec![0u8; 32]);
    assert_eq!(canonical.inputs[0].prev_vout, 0);
    assert_eq!(canonical.inputs[0].script_sig, vec![0xab]);
    assert_eq!(canonical.inputs[0].sequence, 0xffffffff);
    assert_eq!(canonical.outputs.len(), 1);
    assert_eq!(canonical.outputs[0].value, 5000);
    assert_eq!(canonical.outputs[0].script_pubkey, vec![0xab]);
}

#[test]
fn previous_output_id_is_byte_reversed() {
    let mut digits = String::from("0x");
    digits.push_str("01");
    digits.push_str(&"00".repeat(30));
    digits.push_str("ff");
    let got = reconstruct_input(&input(&digits, 7, "0x", 5)).unwrap();
    let mut expected = vec![0u8; 32];
    expected[0] = 0xff;
    expected[31] = 0x01;
    assert_eq!(got.prev_txid, expected);
    assert_eq!(got.prev_vout, 7);
    assert_eq!(got.sequence, 5);
    assert_eq!(got.script_sig, Vec::<u8>::new());
}

#[test]
fn hash_of_wrong_length_is_malformed() {
    let r = reconstruct_input(&input("0x0011", 0, "0x", 0));
    assert_eq!(r, Err(IndexError::MalformedTxidHash));
}

#[test]
fn hash_with_non_hex_digit_is_malformed() {
    let mut h = String::from("0x");
    h.push_str(&"0".repeat(63));
    h.push('g');
    let r = reconstruct_input(&input(&h, 0, "0x", 0));
    assert_eq!(r, Err(IndexError::MalformedTxidHash));
}

#[test]
fn script_with_odd_length_is_malformed() {
    let h = format!("0x{}", "0".repeat(64));
    let r = reconstruct_input(&input(&h, 0, "0xabc", 0));
    assert_eq!(r, Err(IndexError::MalformedScriptHex));
}

#[test]
fn script_shorter_than_its_prefix_is_malformed() {
    let h = format!("0x{}", "0".repeat(64));
    let r = reconstruct_input(&input(&h, 0, "0", 0));
    assert_eq!(r, Err(IndexError::MalformedScriptHex));
}

#[test]
fn malformed_hash_is_reported_before_malformed_script() {
    let r = reconstruct_input(&input("0x", 0, "0xabc", 0));
    assert_eq!(r, Err(IndexError::MalformedTxidHash));
}

#[test]
fn input_order_is_preserved() {
    let h0 = format!("0x{}", "11".repeat(32));
    let h1 = format!("0x{}", "22".repeat(32));
    let tx = TransactionData {
        tx_index: 3,
        tx_id: "0x00".to_string(),
        inputs: vec![input(&h0, 0, "0x", 0), input(&h1, 1, "0x", 1)],
        outputs: vec![
            TxOutputData { value: 1, script_pubkey: vec![1] },
            TxOutputData { value: 2, script_pubkey: vec![2] },
        ],
    };
    let canonical = reconstruct_transaction(600_000_000, &tx).unwrap();
    assert_eq!(canonical.inputs[0].prev_txid, vec![0x11u8; 32]);
    assert_eq!(canonical.inputs[1].prev_txid, vec![0x22u8; 32]);
    assert_eq!(canonical.outputs[0].value, 1);
    assert_eq!(canonical.outputs[1].value, 2);
}
