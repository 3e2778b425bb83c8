use taurvia_wallet::network::ChainFamily;
use taurvia_wallet::wallet::{
    WalletAddresses, WalletProtection, DEFAULT_DERIVATION_PATH, MIN_WALLET_FILE_VERSION,
    WALLET_FILE_VERSION,
};

#[test]
fn protection_defaults_to_password_only() {
    assert_eq!(WalletProtection::default(), WalletProtection::Password);
    assert!(!WalletProtection::Password.is_device_bound());
    assert!(WalletProtection::PasswordDevice.is_device_bound());
}

#[test]
fn file_format_constants() {
    assert_eq!(WALLET_FILE_VERSION, 2);
    assert_eq!(MIN_WALLET_FILE_VERSION, 1);
    assert_eq!(DEFAULT_DERIVATION_PATH, "m/44'/501'/0'/0'");
}

#[test]
fn addresses_set_then_get() {
    let mut a = WalletAddresses::default();
    for f in [ChainFamily::Solana, ChainFamily::Evm, ChainFamily::Bitcoin, ChainFamily::Sui] {
        assert_eq!(a.get(f), None);
    }
    a.set(ChainFamily::Evm, "0xabc".to_string());
    assert_eq!(a.get(ChainFamily::Evm), Some("0xabc"));
    assert_eq!(a.get(ChainFamily::Solana), None);
    a.set(ChainFamily::Bitcoin, "bc1q".to_string());
    a.set(ChainFamily::Evm, "0xdef".to_string());
    assert_eq!(a.get(ChainFamily::Evm), Some("0xdef"));
    assert_eq!(a.get(ChainFamily::Bitcoin), Some("bc1q"));
    a.set(ChainFamily::Sui, "0xsui".to_string());
    a.set(ChainFamily::Solana, "Sol".to_string());
    assert_eq!(a.sui.as_deref(), Some("0xsui"));
    assert_eq!(a.solana.as_deref(), Some("Sol"));
}
