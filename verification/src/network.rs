//! Chain families and the descriptor of a network the wallet can run on.

use vstd::prelude::*;

verus! {

/// The family of chains a network belongs to; it decides which signer and
/// which RPC client the wallet uses.
#[derive(Clone, Copy, Debug, PartialEq, Eq, Structural)]
pub enum ChainFamily {
    Solana,
    Evm,
    Bitcoin,
    Sui,
}

/// The parts of a network's descriptor that the wallet's decisions read.
#[derive(Clone, Copy, Debug)]
pub struct NetworkDescriptor {
    /// Human readable name, e.g. "Solana Mainnet".
    pub name: &'static str,
    pub family: ChainFamily,
    pub is_testnet: bool,
    /// Whether the wallet may switch to this network.
    pub enabled: bool,
    /// The network's own default RPC endpoint.
    pub default_rpc: &'static str,
    /// Ticker of the native coin, e.g. "SOL".
    pub native_symbol: &'static str,
}

/// Id of Solana mainnet in the network table.
pub const NETWORK_SOLANA_MAINNET: &'static str = "solana-mainnet";

/// Id of Ethereum mainnet in the network table.
pub const NETWORK_ETHEREUM_MAINNET: &'static str = "ethereum-mainnet";

} // verus!
