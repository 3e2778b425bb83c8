//! The unlocked session: the keys held while the wallet is open, and the
//! wallet file cached with them.

use vstd::prelude::*;
use crate::codec::keypair_try_from_bytes;
use crate::keypair::Keypair;
use crate::keyring::FamilyKeyring;
use crate::network::{ChainFamily, NetworkDescriptor};
use crate::settings::WalletError;
use crate::wallet::WalletFile;

verus! {

/// What the wallet service holds between requests.
pub struct SessionState {
    /// The keys of the open wallet; `None` while locked.
    pub keyring: Option<FamilyKeyring>,
    /// The wallet file read while the session was open.
    pub cached_wallet: Option<WalletFile>,
}

impl SessionState {
    /// `signing_keypair`: a copy of the session's Solana keypair, refused while locked.
    pub open spec fn signing_spec(&self) -> Result<Seq<u8>, WalletError> {
        match self.keyring {
            Some(k) => Ok(k.solana@),
            None => Err(WalletError::Locked),
        }
    }

    /// A locked state with nothing cached.
    pub fn new() -> (r: Self)
        ensures
            r.keyring is None,
            r.cached_wallet is None,
    {
        SessionState { keyring: None, cached_wallet: None }
    }

    /// Whether the wallet is open.
    pub fn is_unlocked(&self) -> (r: bool)
        ensures
            r == self.keyring is Some,
    {
        self.keyring.is_some()
    }

    /// Closes the session: the keys and the cached wallet file are dropped.
    pub fn lock(&mut self)
        ensures
            final(self).keyring is None,
            final(self).cached_wallet is None,
    {
        self.keyring = None;
        self.cached_wallet = None;
    }

    /// A fresh copy of the Solana keypair for signing.
    pub fn signing_keypair(&self) -> (r: Result<Keypair, WalletError>)
        ensures
            match r {
                Ok(kp) => self.signing_spec() == Ok::<Seq<u8>, WalletError>(kp@) && kp.wf(),
                Err(e) => self.signing_spec() == Err::<Seq<u8>, WalletError>(e),
            },
    {
        match &self.keyring {
            None => Err(WalletError::Locked),
            Some(k) => {
                let bytes = k.solana.to_bytes();
                match keypair_try_from_bytes(bytes.as_slice()) {
                    Some(b) => Ok(Keypair::from_valid_bytes(b)),
                    None => Err(WalletError::Locked),
                }
            },
        }
    }

    /// The Solana public key of the session, refused while locked.
    pub fn require_pubkey(&self) -> (r: Result<Vec<u8>, WalletError>)
        ensures
            self.keyring is None ==> r == Err::<Vec<u8>, WalletError>(WalletError::Locked),
            self.keyring matches Some(k) ==> (r matches Ok(p) && p@ == k.solana.public_spec()),
    {
        match &self.keyring {
            None => Err(WalletError::Locked),
            Some(k) => Ok(k.solana.pubkey_bytes()),
        }
    }
}


/// Whose history an activity request reads.
pub enum ActivityRequest {
    /// The Solana account with this public key.
    Solana(Vec<u8>),
    /// The EVM account with this address.
    Evm(String),
    /// The Bitcoin account with this address.
    Bitcoin(String),
    /// Nothing to read: the family has no history yet (Sui).
    Empty,
}

/// What signs a transfer.
pub enum TransferSigner {
    /// A copy of the Solana keypair.
    Solana(Keypair),
    /// The EVM signer, by its address.
    Evm(String),
    /// The Bitcoin signer of the network (testnet or mainnet), by its address.
    Bitcoin(String),
}

impl SessionState {
    /// `get_activity`: Sui has an empty history; every other family reads the
    /// history of the session's own account, and is refused while locked.
    pub fn activity_request(&self, desc: &NetworkDescriptor) -> (r: Result<ActivityRequest, WalletError>)
        ensures
            desc.family == ChainFamily::Sui ==> r matches Ok(ActivityRequest::Empty),
            desc.family != ChainFamily::Sui && self.keyring is None ==> r == Err::<
                ActivityRequest,
                WalletError,
            >(WalletError::Locked),
            self.keyring matches Some(k) ==> match desc.family {
                ChainFamily::Solana => (r matches Ok(ActivityRequest::Solana(p)) && p@
                    == k.solana.public_spec()),
                ChainFamily::Evm => (r matches Ok(ActivityRequest::Evm(a)) && a@ == k.evm.address@),
                ChainFamily::Bitcoin => (r matches Ok(ActivityRequest::Bitcoin(a)) && a@
                    == k.address_spec(ChainFamily::Bitcoin, desc.is_testnet)),
                ChainFamily::Sui => true,
            },
    {
        if desc.family == ChainFamily::Sui {
            return Ok(ActivityRequest::Empty);
        }
        match &self.keyring {
            None => Err(WalletError::Locked),
            Some(k) => match desc.family {
                ChainFamily::Solana => Ok(ActivityRequest::Solana(k.solana.pubkey_bytes())),
                ChainFamily::Evm => Ok(ActivityRequest::Evm(k.evm.address.clone())),
                _ => Ok(ActivityRequest::Bitcoin(k.btc(desc.is_testnet).address.clone())),
            },
        }
    }

    /// `preview_send` / `send_transfer`: the signer of a transfer on `desc`'s
    /// network. Sui is refused; every other family is refused while locked.
    pub fn transfer_signer(&self, desc: &NetworkDescriptor) -> (r: Result<TransferSigner, WalletError>)
        ensures
            desc.family == ChainFamily::Sui ==> r == Err::<TransferSigner, WalletError>(
                WalletError::FamilyNotEnabled,
            ),
            desc.family != ChainFamily::Sui && self.keyring is None ==> r == Err::<
                TransferSigner,
                WalletError,
            >(WalletError::Locked),
            self.keyring matches Some(k) ==> match desc.family {
                ChainFamily::Solana => (r matches Ok(TransferSigner::Solana(kp)) && kp@ == k.solana@),
                ChainFamily::Evm => (r matches Ok(TransferSigner::Evm(a)) && a@ == k.evm.address@),
                ChainFamily::Bitcoin => (r matches Ok(TransferSigner::Bitcoin(a)) && a@
                    == k.address_spec(ChainFamily::Bitcoin, desc.is_testnet)),
                ChainFamily::Sui => true,
            },
    {
        if desc.family == ChainFamily::Sui {
            return Err(WalletError::FamilyNotEnabled);
        }
        match desc.family {
            ChainFamily::Solana => match self.signing_keypair() {
                Ok(kp) => Ok(TransferSigner::Solana(kp)),
                Err(e) => Err(e),
            },
            _ => match &self.keyring {
                None => Err(WalletError::Locked),
                Some(k) => {
                    if desc.family == ChainFamily::Evm {
                        Ok(TransferSigner::Evm(k.evm.address.clone()))
                    } else {
                        Ok(TransferSigner::Bitcoin(k.btc(desc.is_testnet).address.clone()))
                    }
                },
            },
        }
    }
}

/// A locked session signs nothing.
pub proof fn lemma_locked_session_cannot_sign(state: SessionState)
    requires
        state.keyring is None,
    ensures
        state.signing_spec() == Err::<Seq<u8>, WalletError>(WalletError::Locked),
{
}

} // verus!
