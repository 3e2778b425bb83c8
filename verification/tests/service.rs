use taurvia_wallet::keypair::derive_keypair_from_seed;
use taurvia_wallet::keyring::{BtcSigner, EvmSigner, FamilyKeyring};
use taurvia_wallet::network::{ChainFamily, NetworkDescriptor};
use taurvia_wallet::service::{
    pricing_mints, public_key_for, send_route, snapshot_plan, SendRoute,
    SnapshotPlan, WRAPPED_SOL_MINT,
};
use taurvia_wallet::settings::WalletError;
use taurvia_wallet::wallet::{CryptoEnvelope, WalletAddresses, WalletFile, WalletProtection};

fn desc(family: ChainFamily, is_testnet: bool) -> NetworkDescriptor {
    NetworkDescriptor {
        name: "Net",
        family,
        is_testnet,
        enabled: true,
        default_rpc: "https://rpc",
        native_symbol: "SOL",
    }
}

fn keyring() -> FamilyKeyring {
    FamilyKeyring {
        solana: derive_keypair_from_seed(&[4u8; 64]).unwrap(),
        evm: EvmSigner { address: "0xevm".to_string() },
        bitcoin: BtcSigner { address: "bc1main".to_string() },
        bitcoin_testnet: BtcSigner { address: "tb1test".to_string() },
    }
}

fn wallet_file(addresses: WalletAddresses) -> WalletFile {
    WalletFile {
        version: 2,
        wallet_id: "w".to_string(),
        network: "solana-mainnet".to_string(),
        public_key: "SoLpUbKeY".to_string(),
        created_at: "2024-01-01".to_string(),
        protection: WalletProtection::Password,
        addresses,
        crypto: CryptoEnvelope {
            kdf: "argon2id".to_string(),
            salt: "s".to_string(),
            cipher: "aes-256-gcm".to_string(),
            nonce: "n".to_string(),
            ciphertext: "c".to_string(),
        },
    }
}

#[test]
fn snapshot_without_wallet_is_empty() {
    match snapshot_plan(false, true, "solana-mainnet".to_string(), Some("pk".to_string()), &desc(ChainFamily::Solana, false)) {
        Ok(SnapshotPlan::Ready(h)) => {
            assert!(!h.exists);
            assert!(!h.unlocked);
            assert_eq!(h.public_key, None);
            assert_eq!(h.network, "solana-mainnet");
            assert_eq!(h.native_symbol, "SOL");
        },
        _ => panic!("expected an empty snapshot"),
    }
}

#[test]
fn locked_snapshot_keeps_public_key() {
    match snapshot_plan(true, false, "solana-mainnet".to_string(), Some("pk".to_string()), &desc(ChainFamily::Solana, false)) {
        Ok(SnapshotPlan::Ready(h)) => {
            assert!(h.exists);
            assert!(!h.unlocked);
            assert_eq!(h.public_key.as_deref(), Some("pk"));
        },
        _ => panic!("expected a locked snapshot"),
    }
}

#[test]
fn unlocked_snapshot_fetches_from_its_family() {
    for f in [ChainFamily::Solana, ChainFamily::Evm, ChainFamily::Bitcoin] {
        match snapshot_plan(true, true, "n".to_string(), None, &desc(f, false)) {
            Ok(SnapshotPlan::Fetch(g)) => assert_eq!(g, f),
            _ => panic!("expected a fetch"),
        }
    }
    assert!(matches!(
        snapshot_plan(true, true, "n".to_string(), None, &desc(ChainFamily::Sui, false)),
        Err(WalletError::FamilyNotEnabled)
    ));
}

#[test]
fn send_routes() {
    assert!(matches!(send_route(ChainFamily::Solana, None), Ok(SendRoute::SolNative)));
    assert!(matches!(send_route(ChainFamily::Solana, Some("SOL")), Ok(SendRoute::SolNative)));
    assert!(matches!(send_route(ChainFamily::Solana, Some("Native")), Ok(SendRoute::SolNative)));
    match send_route(ChainFamily::Solana, Some("EPjFWdd5AufqSSqeM2qN1xzybapC8G4wEGGkZwyTDt1v")) {
        Ok(SendRoute::SplToken(m)) => assert_eq!(m, "EPjFWdd5AufqSSqeM2qN1xzybapC8G4wEGGkZwyTDt1v"),
        _ => panic!("expected an SPL transfer"),
    }
    assert!(matches!(send_route(ChainFamily::Evm, Some("eth")), Ok(SendRoute::Evm)));
    assert!(matches!(send_route(ChainFamily::Bitcoin, None), Ok(SendRoute::Bitcoin)));
    assert!(matches!(send_route(ChainFamily::Sui, None), Err(WalletError::FamilyNotEnabled)));
}

#[test]
fn session_keys_answer_the_public_key() {
    let k = keyring();
    let sol = k.solana.pubkey_string();
    assert_eq!(public_key_for(Some(&k), &desc(ChainFamily::Solana, false), None), Some(sol));
    assert_eq!(public_key_for(Some(&k), &desc(ChainFamily::Bitcoin, true), None).as_deref(), Some("tb1test"));
    assert_eq!(public_key_for(Some(&k), &desc(ChainFamily::Bitcoin, false), None).as_deref(), Some("bc1main"));
    assert_eq!(public_key_for(Some(&k), &desc(ChainFamily::Evm, false), None).as_deref(), Some("0xevm"));
    assert_eq!(public_key_for(Some(&k), &desc(ChainFamily::Sui, false), None).as_deref(), Some(""));
}

#[test]
fn locked_wallet_answers_from_its_file() {
    let mut addresses = WalletAddresses::default();
    addresses.set(ChainFamily::Evm, "0xfile".to_string());
    let w = wallet_file(addresses);
    assert_eq!(public_key_for(None, &desc(ChainFamily::Evm, false), Some(&w)).as_deref(), Some("0xfile"));
    assert_eq!(public_key_for(None, &desc(ChainFamily::Solana, false), Some(&w)).as_deref(), Some("SoLpUbKeY"));
    assert_eq!(public_key_for(None, &desc(ChainFamily::Bitcoin, false), Some(&w)), None);
    assert_eq!(public_key_for(None, &desc(ChainFamily::Solana, false), None), None);
}

#[test]
fn pricing_always_includes_wrapped_sol() {
    let mints = vec!["A".to_string(), "B".to_string()];
    assert_eq!(pricing_mints(mints), vec!["A".to_string(), "B".to_string(), WRAPPED_SOL_MINT.to_string()]);
    let held = vec![WRAPPED_SOL_MINT.to_string(), "B".to_string()];
    assert_eq!(pricing_mints(held.clone()), held);
    assert_eq!(pricing_mints(Vec::new()), vec![WRAPPED_SOL_MINT.to_string()]);
}
