use taurvia_wallet::tokens::{curated_tokens, resolve_curated, token_info};

#[test]
fn ethereum_mainnet_has_five_curated_tokens() {
    let tokens = curated_tokens("ethereum-mainnet");
    let symbols: Vec<&str> = tokens.iter().map(|t| t.symbol).collect();
    assert_eq!(symbols, vec!["WETH", "USDC", "USDT", "DAI", "WBTC"]);
    assert_eq!(tokens[1].decimals, 6);
    assert_eq!(tokens[4].decimals, 8);
    assert_eq!(tokens[0].address, "0xC02aaA39b223FE8D0A0e5C4F27eAD9083C756Cc2");
}

#[test]
fn other_networks_have_none() {
    assert!(curated_tokens("ethereum-sepolia").is_empty());
    assert!(curated_tokens("solana-mainnet").is_empty());
    assert!(curated_tokens("").is_empty());
}

#[test]
fn native_asset_is_not_a_token() {
    assert!(resolve_curated("ethereum-mainnet", "eth").is_none());
    assert!(resolve_curated("ethereum-mainnet", "ETH").is_none());
    assert!(resolve_curated("ethereum-mainnet", "Native").is_none());
}

#[test]
fn tokens_resolve_by_address_ignoring_case() {
    let usdc = resolve_curated("ethereum-mainnet", "0xa0b86991c6218b36c1d19d4a2e9eb0ce3606eb48").unwrap();
    assert_eq!(usdc.symbol, "USDC");
    let dai = resolve_curated("ethereum-mainnet", "0X6B175474E89094C44DA98B954EEDEAC495271D0F").unwrap();
    assert_eq!(dai.symbol, "DAI");
    assert!(resolve_curated("ethereum-mainnet", "0x0000000000000000000000000000000000000000").is_none());
    assert!(resolve_curated("ethereum-sepolia", "0xa0b86991c6218b36c1d19d4a2e9eb0ce3606eb48").is_none());
    assert!(resolve_curated("ethereum-mainnet", "USDC").is_none());
}

#[test]
fn token_info_copies_the_curated_fields() {
    let weth = curated_tokens("ethereum-mainnet")[0];
    let info = token_info(&weth);
    assert_eq!(info.mint, "0xC02aaA39b223FE8D0A0e5C4F27eAD9083C756Cc2");
    assert_eq!(info.symbol, "WETH");
    assert_eq!(info.name, "Wrapped Ether");
    assert_eq!(info.decimals, 18);
    assert_eq!(info.logo_uri.as_deref(), weth.logo_uri);
}
