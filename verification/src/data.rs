//! Data model.
//!
//! Two families of types: the provider-supplied shape of a block and its
//! transactions ([`BlockData`], [`TransactionData`]), and the canonical
//! transaction shape the protocol decoder requires
//! ([`CanonicalTransaction`]). Each executable type has a mathematical view
//! used by every contract.

use vstd::prelude::*;

verus! {

/// One input of a provider-supplied transaction.
#[derive(Debug, Clone, PartialEq, Eq)]
pub struct TxInputData {
    /// Previous output's transaction hash: a two-character prefix followed
    /// by 64 hexadecimal characters.
    pub prev_txid_hash: String,
    /// Previous output's index, copied verbatim.
    pub prev_vout: u32,
    /// Unlocking script: a two-character prefix followed by an even number
    /// of hexadecimal characters.
    pub script_sig_hex: String,
    /// Sequence number, copied verbatim.
    pub sequence: u32,
}

/// One output of a provider-supplied transaction.
#[derive(Debug, Clone, PartialEq, Eq)]
pub struct TxOutputData {
    /// Value in the smallest unit.
    pub value: u64,
    /// Locking-script bytes, as handed out by the provider's script-byte
    /// accessor.
    pub script_pubkey: Vec<u8>,
}

/// One provider-supplied transaction with its enriched metadata.
#[derive(Debug, Clone, PartialEq, Eq)]
pub struct TransactionData {
    /// Index of the transaction within its block.
    pub tx_index: u32,
    /// Transaction identifier.
    pub tx_id: String,
    /// Inputs, in consensus order.
    pub inputs: Vec<TxInputData>,
    /// Outputs, in consensus order.
    pub outputs: Vec<TxOutputData>,
}

/// One provider-supplied block.
#[derive(Debug, Clone, PartialEq, Eq)]
pub struct BlockData {
    /// Block height.
    pub height: u64,
    /// Block timestamp.
    pub timestamp: u32,
    /// Transactions, in canonical consensus order.
    pub transactions: Vec<TransactionData>,
}

/// Mathematical view of [`TxInputData`].
#[verifier::ext_equal]
pub struct TxInputDataV {
    pub prev_txid_hash: Seq<char>,
    pub prev_vout: u32,
    pub script_sig_hex: Seq<char>,
    pub sequence: u32,
}

/// Mathematical view of [`TxOutputData`].
#[verifier::ext_equal]
pub struct TxOutputDataV {
    pub value: u64,
    pub script_pubkey: Seq<u8>,
}

/// Mathematical view of [`TransactionData`].
#[verifier::ext_equal]
pub struct TransactionDataV {
    pub tx_index: u32,
    pub tx_id: Seq<char>,
    pub inputs: Seq<TxInputDataV>,
    pub outputs: Seq<TxOutputDataV>,
}

/// Mathematical view of [`BlockData`].
#[verifier::ext_equal]
pub struct BlockDataV {
    pub height: u64,
    pub timestamp: u32,
    pub transactions: Seq<TransactionDataV>,
}

impl View for TxInputData {
    type V = TxInputDataV;

    open spec fn view(&self) -> TxInputDataV {
        TxInputDataV {
            prev_txid_hash: self.prev_txid_hash@,
            prev_vout: self.prev_vout,
            script_sig_hex: self.script_sig_hex@,
            sequence: self.sequence,
        }
    }
}

impl DeepView for TxInputData {
    type V = TxInputDataV;

    open spec fn deep_view(&self) -> TxInputDataV {
        self.view()
    }
}

impl View for TxOutputData {
    type V = TxOutputDataV;

    open spec fn view(&self) -> TxOutputDataV {
        TxOutputDataV { value: self.value, script_pubkey: self.script_pubkey@ }
    }
}

impl DeepView for TxOutputData {
    type V = TxOutputDataV;

    open spec fn deep_view(&self) -> TxOutputDataV {
        self.view()
    }
}

impl View for TransactionData {
    type V = TransactionDataV;

    open spec fn view(&self) -> TransactionDataV {
        TransactionDataV {
            tx_index: self.tx_index,
            tx_id: self.tx_id@,
            inputs: self.inputs.deep_view(),
            outputs: self.outputs.deep_view(),
        }
    }
}

impl DeepView for TransactionData {
    type V = TransactionDataV;

    open spec fn deep_view(&self) -> TransactionDataV {
        self.view()
    }
}

impl View for BlockData {
    type V = BlockDataV;

    open spec fn view(&self) -> BlockDataV {
        BlockDataV {
            height: self.height,
            timestamp: self.timestamp,
            transactions: self.transactions.deep_view(),
        }
    }
}

impl DeepView for BlockData {
    type V = BlockDataV;

    open spec fn deep_view(&self) -> BlockDataV {
        self.view()
    }
}

/// One input of a canonical transaction. The witness is always empty and is
/// therefore not represented.
#[derive(Debug, Clone, PartialEq, Eq)]
pub struct CanonicalInput {
    /// Previous output's transaction id, as 32 bytes in internal
    /// (reversed-display) byte order.
    pub prev_txid: Vec<u8>,
    /// Previous output's index.
    pub prev_vout: u32,
    /// Unlocking-script bytes.
    pub script_sig: Vec<u8>,
    /// Sequence number.
    pub sequence: u32,
}

/// One output of a canonical transaction.
#[derive(Debug, Clone, PartialEq, Eq)]
pub struct CanonicalOutput {
    /// Value in the smallest unit.
    pub value: u64,
    /// Locking-script bytes.
    pub script_pubkey: Vec<u8>,
}

/// The canonical transaction shape the protocol decoder requires.
#[derive(Debug, Clone, PartialEq, Eq)]
pub struct CanonicalTransaction {
    /// Transaction version.
    pub version: i32,
    /// Lock time, as a consensus value.
    pub lock_time: u32,
    /// Inputs, in the provider's order.
    pub inputs: Vec<CanonicalInput>,
    /// Outputs, in the provider's order.
    pub outputs: Vec<CanonicalOutput>,
}

/// Mathematical view of [`CanonicalInput`].
#[verifier::ext_equal]
pub struct CanonicalInputV {
    pub prev_txid: Seq<u8>,
    pub prev_vout: u32,
    pub script_sig: Seq<u8>,
    pub sequence: u32,
}

/// Mathematical view of [`CanonicalOutput`].
#[verifier::ext_equal]
pub struct CanonicalOutputV {
    pub value: u64,
    pub script_pubkey: Seq<u8>,
}

/// Mathematical view of [`CanonicalTransaction`].
#[verifier::ext_equal]
pub struct CanonicalTransactionV {
    pub version: i32,
    pub lock_time: u32,
    pub inputs: Seq<CanonicalInputV>,
    pub outputs: Seq<CanonicalOutputV>,
}

impl View for CanonicalInput {
    type V = CanonicalInputV;

    open spec fn view(&self) -> CanonicalInputV {
        CanonicalInputV {
            prev_txid: self.prev_txid@,
            prev_vout: self.prev_vout,
            script_sig: self.script_sig@,
            sequence: self.sequence,
        }
    }
}

impl DeepView for CanonicalInput {
    type V = CanonicalInputV;

    open spec fn deep_view(&self) -> CanonicalInputV {
        self.view()
    }
}

impl View for CanonicalOutput {
    type V = CanonicalOutputV;

    open spec fn view(&self) -> CanonicalOutputV {
        CanonicalOutputV { value: self.value, script_pubkey: self.script_pubkey@ }
    }
}

impl DeepView for CanonicalOutput {
    type V = CanonicalOutputV;

    open spec fn deep_view(&self) -> CanonicalOutputV {
        self.view()
    }
}

impl View for CanonicalTransaction {
    type V = CanonicalTransactionV;

    open spec fn view(&self) -> CanonicalTransactionV {
        CanonicalTransactionV {
            version: self.version,
            lock_time: self.lock_time,
            inputs: self.inputs.deep_view(),
            outputs: self.outputs.deep_view(),
        }
    }
}

impl DeepView for CanonicalTransaction {
    type V = CanonicalTransactionV;

    open spec fn deep_view(&self) -> CanonicalTransactionV {
        self.view()
    }
}

} // verus!
