//! The unlocked session's keys: one signer per chain family.

use vstd::prelude::*;
use vstd::string::*;
use crate::codec::pubkey_text;
use crate::keypair::Keypair;
use crate::network::ChainFamily;

verus! {

/// An EVM signer, seen through the address it signs for.
pub struct EvmSigner {
    pub address: String,
}

/// A Bitcoin signer, seen through the address it signs for.
pub struct BtcSigner {
    pub address: String,
}

/// The keys of an unlocked wallet: Solana, EVM, and Bitcoin mainnet and testnet.
pub struct FamilyKeyring {
    pub solana: Keypair,
    pub evm: EvmSigner,
    pub bitcoin: BtcSigner,
    pub bitcoin_testnet: BtcSigner,
}

impl FamilyKeyring {
    /// `address`: the receive address of a family on mainnet or testnet.
    /// Sui has no signer yet, so its address is empty.
    pub open spec fn address_spec(&self, family: ChainFamily, testnet: bool) -> Seq<char> {
        match family {
            ChainFamily::Solana => pubkey_text(self.solana.public_spec()),
            ChainFamily::Evm => self.evm.address@,
            ChainFamily::Bitcoin => if testnet {
                self.bitcoin_testnet.address@
            } else {
                self.bitcoin.address@
            },
            ChainFamily::Sui => Seq::empty(),
        }
    }

    /// The receive address of `family` (testnet or mainnet for Bitcoin).
    pub fn address(&self, family: ChainFamily, testnet: bool) -> (r: String)
        ensures
            r@ == self.address_spec(family, testnet),
    {
        match family {
            ChainFamily::Solana => self.solana.pubkey_string(),
            ChainFamily::Evm => self.evm.address.clone(),
            ChainFamily::Bitcoin => {
                if testnet {
                    self.bitcoin_testnet.address.clone()
                } else {
                    self.bitcoin.address.clone()
                }
            },
            ChainFamily::Sui => String::new(),
        }
    }

    /// The Bitcoin signer of the testnet or of mainnet.
    pub fn btc(&self, testnet: bool) -> (r: &BtcSigner)
        ensures
            r == if testnet {
                &self.bitcoin_testnet
            } else {
                &self.bitcoin
            },
    {
        if testnet {
            &self.bitcoin_testnet
        } else {
            &self.bitcoin
        }
    }
}

} // verus!
