use runes_index::{IndexError, Network, get_rune_genesis_block_height};

#[test]
fn production_network_activates_at_840000() {
    assert_eq!(get_rune_genesis_block_height(Network::Bitcoin), Ok(840_000));
}

#[test]
fn testnet_has_no_defined_policy() {
    assert_eq!(
        get_rune_genesis_block_height(Network::Testnet),
        Err(IndexError::UnsupportedNetwork)
    );
}

#[test]
fn signet_has_no_defined_policy() {
    assert_eq!(
        get_rune_genesis_block_height(Network::Signet),
        Err(IndexError::UnsupportedNetwork)
    );
}

#[test]
fn regtest_has_no_defined_policy() {
    assert_eq!(
        get_rune_genesis_block_height(Network::Regtest),
        Err(IndexError::UnsupportedNetwork)
    );
}
