use taurvia_wallet::network::{ChainFamily, NetworkDescriptor};
use taurvia_wallet::rpc_urls::RpcUrls;
use taurvia_wallet::settings::{
    apply_legacy_rpc_url, pin_wallet_network, connectivity_changed, settings_for_network, split_runtime, AppSettings,
    RuntimeConfig, WalletError,
};

const MANAGED: &str = "https://managed.example/solana";

fn desc(family: ChainFamily, default_rpc: &'static str, enabled: bool) -> NetworkDescriptor {
    NetworkDescriptor {
        name: "Test",
        family,
        is_testnet: false,
        enabled,
        default_rpc,
        native_symbol: "X",
    }
}

fn eth() -> NetworkDescriptor {
    desc(ChainFamily::Evm, "https://eth.example", true)
}

fn btc() -> NetworkDescriptor {
    desc(ChainFamily::Bitcoin, "https://btc.example", true)
}

fn settings(network: &str, rpc_url: Option<&str>, urls: &[(&str, &str)]) -> AppSettings {
    let mut rpc_urls = RpcUrls::new();
    for (k, v) in urls {
        rpc_urls.insert(k.to_string(), v.to_string());
    }
    AppSettings {
        network: network.to_string(),
        rpc_url: rpc_url.map(|s| s.to_string()),
        rpc_urls,
        jupiter_api_key: None,
    }
}

fn runtime(url: &str) -> RuntimeConfig {
    RuntimeConfig { rpc_url: url.to_string(), jupiter_api_key: None }
}

#[test]
fn rpc_urls_behave_as_a_map() {
    let mut m = RpcUrls::new();
    assert_eq!(m.get("a"), None);
    m.insert("a".to_string(), "1".to_string());
    m.insert("b".to_string(), "2".to_string());
    m.insert("a".to_string(), "3".to_string());
    assert_eq!(m.get("a").map(|s| s.as_str()), Some("3"));
    assert_eq!(m.get("b").map(|s| s.as_str()), Some("2"));
    m.remove("a");
    assert_eq!(m.get("a"), None);
    assert_eq!(m.get("b").map(|s| s.as_str()), Some("2"));
    m.remove("zzz");
    assert_eq!(m.get("b").map(|s| s.as_str()), Some("2"));
}

#[test]
fn rpc_urls_compare_as_maps() {
    let mut x = RpcUrls::new();
    x.insert("a".to_string(), "1".to_string());
    x.insert("b".to_string(), "2".to_string());
    let mut y = RpcUrls::new();
    y.insert("b".to_string(), "2".to_string());
    y.insert("a".to_string(), "1".to_string());
    assert!(x.same_as(&y));
    y.insert("a".to_string(), "9".to_string());
    assert!(!x.same_as(&y));
    let mut z = RpcUrls::new();
    z.insert("a".to_string(), "1".to_string());
    assert!(!x.same_as(&z));
    assert!(!z.same_as(&x));
}

#[test]
fn split_runtime_active_solana() {
    let s = settings("solana-mainnet", None, &[]);
    let sol = desc(ChainFamily::Solana, "https://sol.default", true);
    let (a, b, c) = split_runtime(&s, &runtime("https://resolved"), &sol, &eth(), &btc(), MANAGED);
    assert_eq!(a, "https://resolved");
    assert_eq!(b, "https://eth.example");
    assert_eq!(c, "https://btc.example");
}

#[test]
fn split_runtime_active_evm_uses_solana_override() {
    let s = settings("ethereum-mainnet", Some("https://user"), &[("solana-mainnet", "https://sol.user")]);
    let (a, b, c) = split_runtime(&s, &runtime("https://resolved"), &eth(), &eth(), &btc(), MANAGED);
    assert_eq!(a, "https://sol.user");
    assert_eq!(b, "https://resolved");
    assert_eq!(c, "https://btc.example");
}

#[test]
fn split_runtime_falls_back_to_user_url_then_managed() {
    let s = settings("bitcoin-mainnet", Some("https://user"), &[]);
    let (a, b, c) = split_runtime(&s, &runtime("https://resolved"), &btc(), &eth(), &btc(), MANAGED);
    assert_eq!(a, "https://user");
    assert_eq!(b, "https://eth.example");
    assert_eq!(c, "https://resolved");
    let blank = settings("bitcoin-mainnet", Some("  "), &[]);
    let (a, _, _) = split_runtime(&blank, &runtime("r"), &btc(), &eth(), &btc(), MANAGED);
    assert_eq!(a, MANAGED);
    // A blank Solana override is not replaced by the user URL.
    let blank_override = settings("bitcoin-mainnet", Some("https://user"), &[("solana-mainnet", " ")]);
    let (a, _, _) = split_runtime(&blank_override, &runtime("r"), &btc(), &eth(), &btc(), MANAGED);
    assert_eq!(a, MANAGED);
    let none = settings("bitcoin-mainnet", None, &[]);
    let (a, _, _) = split_runtime(&none, &runtime("r"), &btc(), &eth(), &btc(), MANAGED);
    assert_eq!(a, MANAGED);
}

#[test]
fn legacy_rpc_url_only_without_user_choice_or_env() {
    let s = settings("solana-mainnet", None, &[]);
    let mut r = runtime("https://resolved");
    apply_legacy_rpc_url(&mut r, &s, Some("https://legacy"), false);
    assert_eq!(r.rpc_url, "https://legacy");

    let mut r = runtime("https://resolved");
    apply_legacy_rpc_url(&mut r, &s, Some("https://legacy"), true);
    assert_eq!(r.rpc_url, "https://resolved");

    let mut r = runtime("https://resolved");
    apply_legacy_rpc_url(&mut r, &s, Some(""), false);
    assert_eq!(r.rpc_url, "https://resolved");

    let mut r = runtime("https://resolved");
    apply_legacy_rpc_url(&mut r, &s, None, false);
    assert_eq!(r.rpc_url, "https://resolved");

    let chosen = settings("solana-mainnet", Some("https://user"), &[]);
    let mut r = runtime("https://resolved");
    apply_legacy_rpc_url(&mut r, &chosen, Some("https://legacy"), false);
    assert_eq!(r.rpc_url, "https://resolved");

    let blank = settings("solana-mainnet", Some(" \t"), &[]);
    let mut r = runtime("https://resolved");
    apply_legacy_rpc_url(&mut r, &blank, Some("https://legacy"), false);
    assert_eq!(r.rpc_url, "https://legacy");
}

#[test]
fn connectivity_changes() {
    let a = settings("solana-mainnet", None, &[("x", "1")]);
    let b = settings("solana-mainnet", None, &[("x", "1")]);
    assert!(!connectivity_changed(&a, &b));
    let c = settings("ethereum-mainnet", None, &[("x", "1")]);
    assert!(connectivity_changed(&a, &c));
    let d = settings("solana-mainnet", Some("u"), &[("x", "1")]);
    assert!(connectivity_changed(&a, &d));
    let e = settings("solana-mainnet", None, &[("x", "2")]);
    assert!(connectivity_changed(&a, &e));
    let mut f = settings("solana-mainnet", None, &[("x", "1")]);
    f.jupiter_api_key = Some("k".to_string());
    assert!(connectivity_changed(&a, &f));
}

#[test]
fn switching_network_drops_its_override() {
    let s = settings("solana-mainnet", Some("https://user"), &[("ethereum-mainnet", "https://e"), ("solana-mainnet", "https://s")]);
    let next = settings_for_network(s, "ethereum-mainnet", &eth()).unwrap();
    assert_eq!(next.network, "ethereum-mainnet");
    assert_eq!(next.rpc_url, None);
    assert_eq!(next.rpc_urls.get("ethereum-mainnet"), None);
    assert_eq!(next.rpc_urls.get("solana-mainnet").map(|s| s.as_str()), Some("https://s"));
}

#[test]
fn switching_to_disabled_network_is_refused() {
    let s = settings("solana-mainnet", None, &[]);
    let sui = desc(ChainFamily::Sui, "https://sui", false);
    assert!(matches!(settings_for_network(s, "sui-mainnet", &sui), Err(WalletError::NetworkNotEnabled("Test"))));
}

#[test]
fn existing_wallet_network_wins() {
    let mut s = settings("ethereum-mainnet", Some("u"), &[("x", "1")]);
    pin_wallet_network(&mut s, Some("solana-mainnet"));
    assert_eq!(s.network, "solana-mainnet");
    assert_eq!(s.rpc_url.as_deref(), Some("u"));
    let mut s = settings("ethereum-mainnet", None, &[]);
    pin_wallet_network(&mut s, None);
    assert_eq!(s.network, "ethereum-mainnet");
}

#[test]
fn not_enabled_messages() {
    assert_eq!(
        WalletError::NetworkNotEnabled("Sui Mainnet").not_enabled_message().as_deref(),
        Some("Sui Mainnet is not enabled yet")
    );
    assert_eq!(WalletError::FamilyNotEnabled.not_enabled_message().as_deref(), Some("Sui is not enabled yet"));
    assert_eq!(WalletError::Locked.not_enabled_message(), None);
}
