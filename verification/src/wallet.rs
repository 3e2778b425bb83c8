//! The on-disk wallet file and the public addresses it keeps per chain family.

use vstd::prelude::*;
use crate::network::ChainFamily;

verus! {

/// Current version of the wallet file format.
pub const WALLET_FILE_VERSION: u32 = 2;

/// Oldest wallet file version that can still be read.
pub const MIN_WALLET_FILE_VERSION: u32 = 1;

/// Phantom / Solflare account path (SLIP-0010, all components hardened).
pub const DEFAULT_DERIVATION_PATH: &'static str = "m/44'/501'/0'/0'";

/// How the wallet ciphertext is keyed.
#[derive(Clone, Copy, Debug, PartialEq, Eq, Structural)]
pub enum WalletProtection {
    /// Argon2id(password) only: portable with the JSON file and the password.
    Password,
    /// Argon2id(password) plus an OS keychain device secret: not portable off-device.
    PasswordDevice,
}

impl Default for WalletProtection {
    /// Files written before protection was recorded are password-only.
    fn default() -> (r: Self)
        ensures
            r == WalletProtection::Password,
    {
        WalletProtection::Password
    }
}

impl WalletProtection {
    /// Whether decrypting needs the device secret as well as the password.
    pub fn is_device_bound(self) -> (r: bool)
        ensures
            r == (self == WalletProtection::PasswordDevice),
    {
        match self {
            WalletProtection::PasswordDevice => true,
            WalletProtection::Password => false,
        }
    }
}

/// Parameters and output of the wallet encryption.
#[derive(Clone, Debug)]
pub struct CryptoEnvelope {
    pub kdf: String,
    pub salt: String,
    pub cipher: String,
    pub nonce: String,
    pub ciphertext: String,
}

/// The secret material that the envelope encrypts.
#[derive(Clone, Debug)]
pub struct EncryptedPayload {
    pub mnemonic: String,
    pub private_key: String,
    pub derivation_path: String,
}

/// Public addresses keyed by family. Secrets are never stored here.
#[derive(Clone, Debug)]
pub struct WalletAddresses {
    pub solana: Option<String>,
    pub evm: Option<String>,
    pub bitcoin: Option<String>,
    pub sui: Option<String>,
}

/// The view of an optional string.
pub open spec fn opt_view(s: Option<String>) -> Option<Seq<char>> {
    match s {
        Some(v) => Some(v@),
        None => None,
    }
}

impl Default for WalletAddresses {
    /// No address is known yet (files written before addresses were recorded).
    fn default() -> (r: Self)
        ensures
            r.solana is None,
            r.evm is None,
            r.bitcoin is None,
            r.sui is None,
    {
        WalletAddresses { solana: None, evm: None, bitcoin: None, sui: None }
    }
}

impl WalletAddresses {
    /// The address recorded for `family`, as a value.
    pub open spec fn address_of(&self, family: ChainFamily) -> Option<Seq<char>> {
        match family {
            ChainFamily::Solana => opt_view(self.solana),
            ChainFamily::Evm => opt_view(self.evm),
            ChainFamily::Bitcoin => opt_view(self.bitcoin),
            ChainFamily::Sui => opt_view(self.sui),
        }
    }

    /// The address recorded for `family`, if any.
    pub fn get(&self, family: ChainFamily) -> (r: Option<&str>)
        ensures
            match r {
                Some(a) => self.address_of(family) == Some(a@),
                None => self.address_of(family) is None,
            },
    {
        let slot = match family {
            ChainFamily::Solana => &self.solana,
            ChainFamily::Evm => &self.evm,
            ChainFamily::Bitcoin => &self.bitcoin,
            ChainFamily::Sui => &self.sui,
        };
        match slot {
            Some(a) => Some(a.as_str()),
            None => None,
        }
    }

    /// Records `address` for `family`; the other families keep theirs.
    pub fn set(&mut self, family: ChainFamily, address: String)
        ensures
            forall|g: ChainFamily|
                #![trigger final(self).address_of(g)]
                final(self).address_of(g) == if g == family {
                    Some(address@)
                } else {
                    old(self).address_of(g)
                },
    {
        match family {
            ChainFamily::Solana => self.solana = Some(address),
            ChainFamily::Evm => self.evm = Some(address),
            ChainFamily::Bitcoin => self.bitcoin = Some(address),
            ChainFamily::Sui => self.sui = Some(address),
        }
    }
}

/// The wallet file as stored on disk.
#[derive(Clone, Debug)]
pub struct WalletFile {
    pub version: u32,
    pub wallet_id: String,
    /// Network id the wallet was last used on.
    pub network: String,
    /// Solana public key (base58), kept from the first file version on.
    pub public_key: String,
    pub created_at: String,
    /// Absent in older files: password-only.
    pub protection: WalletProtection,
    /// Public family addresses. Missing on version 1 files.
    pub addresses: WalletAddresses,
    pub crypto: CryptoEnvelope,
}

} // verus!
