use taurvia_wallet::keypair::derive_keypair_from_seed;
use taurvia_wallet::keyring::{BtcSigner, EvmSigner, FamilyKeyring};
use taurvia_wallet::network::{ChainFamily, NetworkDescriptor};
use taurvia_wallet::session::{ActivityRequest, SessionState, TransferSigner};
use taurvia_wallet::settings::WalletError;

fn keyring() -> FamilyKeyring {
    FamilyKeyring {
        solana: derive_keypair_from_seed(&[8u8; 64]).unwrap(),
        evm: EvmSigner { address: "0xevm".to_string() },
        bitcoin: BtcSigner { address: "bc1main".to_string() },
        bitcoin_testnet: BtcSigner { address: "tb1test".to_string() },
    }
}

#[test]
fn new_session_is_locked() {
    let s = SessionState::new();
    assert!(!s.is_unlocked());
    assert!(matches!(s.signing_keypair(), Err(WalletError::Locked)));
    assert!(matches!(s.require_pubkey(), Err(WalletError::Locked)));
}

#[test]
fn open_session_signs_with_its_keypair() {
    let k = keyring();
    let expected = k.solana.to_bytes();
    let pubkey = k.solana.pubkey_bytes();
    let s = SessionState { keyring: Some(k), cached_wallet: None };
    assert!(s.is_unlocked());
    assert_eq!(s.signing_keypair().unwrap().to_bytes(), expected);
    assert_eq!(s.require_pubkey().unwrap(), pubkey);
}

#[test]
fn lock_drops_keys() {
    let mut s = SessionState { keyring: Some(keyring()), cached_wallet: None };
    s.lock();
    assert!(!s.is_unlocked());
    assert!(s.cached_wallet.is_none());
    assert!(matches!(s.signing_keypair(), Err(WalletError::Locked)));
}

#[test]
fn keyring_addresses_and_btc_signers() {
    let k = keyring();
    assert_eq!(k.address(ChainFamily::Solana, false), k.solana.pubkey_string());
    assert_eq!(k.address(ChainFamily::Solana, true), k.solana.pubkey_string());
    assert_eq!(k.address(ChainFamily::Evm, true), "0xevm");
    assert_eq!(k.address(ChainFamily::Bitcoin, true), "tb1test");
    assert_eq!(k.address(ChainFamily::Bitcoin, false), "bc1main");
    assert_eq!(k.address(ChainFamily::Sui, false), "");
    assert_eq!(k.btc(true).address, "tb1test");
    assert_eq!(k.btc(false).address, "bc1main");
}

fn desc(family: ChainFamily, is_testnet: bool) -> NetworkDescriptor {
    NetworkDescriptor { name: "Net", family, is_testnet, enabled: true, default_rpc: "r", native_symbol: "X" }
}

#[test]
fn locked_session_refuses_every_family() {
    let mut s = SessionState { keyring: Some(keyring()), cached_wallet: None };
    s.lock();
    for f in [ChainFamily::Solana, ChainFamily::Evm, ChainFamily::Bitcoin] {
        assert!(matches!(s.activity_request(&desc(f, false)), Err(WalletError::Locked)));
        assert!(matches!(s.transfer_signer(&desc(f, true)), Err(WalletError::Locked)));
    }
    assert!(matches!(s.activity_request(&desc(ChainFamily::Sui, false)), Ok(ActivityRequest::Empty)));
    assert!(matches!(s.transfer_signer(&desc(ChainFamily::Sui, false)), Err(WalletError::FamilyNotEnabled)));
    s.lock();
    assert!(!s.is_unlocked());
}

#[test]
fn open_session_requests_and_signers() {
    let k = keyring();
    let pubkey = k.solana.pubkey_bytes();
    let bytes = k.solana.to_bytes();
    let s = SessionState { keyring: Some(k), cached_wallet: None };
    match s.activity_request(&desc(ChainFamily::Solana, false)) {
        Ok(ActivityRequest::Solana(p)) => assert_eq!(p, pubkey),
        _ => panic!("expected the Solana account"),
    }
    match s.activity_request(&desc(ChainFamily::Evm, false)) {
        Ok(ActivityRequest::Evm(a)) => assert_eq!(a, "0xevm"),
        _ => panic!("expected the EVM account"),
    }
    match s.activity_request(&desc(ChainFamily::Bitcoin, true)) {
        Ok(ActivityRequest::Bitcoin(a)) => assert_eq!(a, "tb1test"),
        _ => panic!("expected the Bitcoin testnet account"),
    }
    match s.transfer_signer(&desc(ChainFamily::Solana, false)) {
        Ok(TransferSigner::Solana(kp)) => assert_eq!(kp.to_bytes(), bytes),
        _ => panic!("expected the Solana keypair"),
    }
    match s.transfer_signer(&desc(ChainFamily::Bitcoin, false)) {
        Ok(TransferSigner::Bitcoin(a)) => assert_eq!(a, "bc1main"),
        _ => panic!("expected the Bitcoin signer"),
    }
    match s.transfer_signer(&desc(ChainFamily::Evm, false)) {
        Ok(TransferSigner::Evm(a)) => assert_eq!(a, "0xevm"),
        _ => panic!("expected the EVM signer"),
    }
}
