//! Indexes Rune protocol messages found in Bitcoin transactions into an
//! ordered sequence of ledger staging commands.
//!
//! The crate reconstructs a canonical transaction from provider-supplied
//! block data, decodes the protocol artifact carried by the transaction (if
//! any), and turns a whole block into the exact, order-sensitive sequence of
//! ledger mutations that must be committed atomically for that block.

use vstd::prelude::*;

pub mod data;
pub mod decode;
pub mod dispatch;
pub mod hex;
pub mod ingest;
pub mod reconstruct;

verus! {

/// Protocol activation height on the production Bitcoin network.
pub const RUNE_GENESIS_BLOCK_HEIGHT: u64 = 840_000;

/// The Bitcoin network a block belongs to.
///
/// Only the production network has a defined Rune activation height; the
/// policy for every other network is an intentional, explicit gap.
#[derive(Clone, Copy, Debug, PartialEq, Eq, Structural)]
pub enum Network {
    Bitcoin,
    Testnet,
    Signet,
    Regtest,
}

/// A fatal indexing error. None of these are recoverable within a block
/// pass: the surrounding service must retry the whole block once the cause
/// is addressed.
#[derive(Clone, Copy, Debug, PartialEq, Eq, Structural)]
pub enum IndexError {
    /// The Rune activation height is not defined for the requested network.
    UnsupportedNetwork,
    /// A previous-output hash string was not a two-character prefix followed
    /// by exactly 64 hexadecimal characters.
    MalformedTxidHash,
    /// An unlocking-script string was not a two-character prefix followed by
    /// an even number of hexadecimal characters.
    MalformedScriptHex,
}

/// Block height at which the Rune protocol activates on `network`.
///
/// The production network has the fixed activation height
/// [`RUNE_GENESIS_BLOCK_HEIGHT`]; every other variant has no defined policy
/// and yields `UnsupportedNetwork` rather than a default.
pub fn get_rune_genesis_block_height(network: Network) -> (r: Result<u64, IndexError>)
    ensures
        network is Bitcoin <==> r is Ok,
        network is Bitcoin ==> r == Ok::<u64, IndexError>(RUNE_GENESIS_BLOCK_HEIGHT),
        !(network is Bitcoin) ==> r == Err::<u64, IndexError>(IndexError::UnsupportedNetwork),
{
    match network {
        Network::Bitcoin => Ok(RUNE_GENESIS_BLOCK_HEIGHT),
        Network::Testnet => Err(IndexError::UnsupportedNetwork),
        Network::Signet => Err(IndexError::UnsupportedNetwork),
        Network::Regtest => Err(IndexError::UnsupportedNetwork),
    }
}

} // verus!
