use taurvia_wallet::models::{
    apply_local_info, apply_local_metadata, apply_remote_info, apply_remote_metadata, TokenBalance,
    UiAmountUpdate,
};
use taurvia_wallet::tokens::TokenInfo;

fn balance(mint: &str, amount: &str) -> TokenBalance {
    TokenBalance {
        mint: mint.to_string(),
        symbol: "abc...".to_string(),
        name: "Unknown".to_string(),
        amount: amount.to_string(),
        decimals: 0,
        logo_uri: Some("old-logo".to_string()),
    }
}

fn info(symbol: &str, decimals: u8, logo: Option<&str>) -> TokenInfo {
    TokenInfo {
        mint: "M".to_string(),
        symbol: symbol.to_string(),
        name: format!("{symbol} name"),
        decimals,
        logo_uri: logo.map(|s| s.to_string()),
    }
}

#[test]
fn local_info_overwrites_and_requests_ui_update() {
    let mut t = balance("M", "1500000");
    let u = apply_local_info(&mut t, info("USDC", 6, None));
    assert_eq!(u, Some(UiAmountUpdate { raw: 1_500_000, decimals: 6 }));
    assert_eq!(t.symbol, "USDC");
    assert_eq!(t.name, "USDC name");
    assert_eq!(t.decimals, 6);
    assert_eq!(t.logo_uri, None);
    assert_eq!(t.amount, "1500000");
}

#[test]
fn zero_decimals_keep_the_balance_decimals() {
    let mut t = balance("M", "10");
    t.decimals = 9;
    assert_eq!(apply_local_info(&mut t, info("X", 0, Some("l"))), None);
    assert_eq!(t.decimals, 9);
    assert_eq!(t.logo_uri.as_deref(), Some("l"));
}

#[test]
fn unparsable_amount_requests_no_update() {
    let mut t = balance("M", "12.5");
    assert_eq!(apply_local_info(&mut t, info("X", 2, None)), None);
    assert_eq!(t.decimals, 2);
}

#[test]
fn remote_info_keeps_names_when_symbol_is_truncated() {
    let mut t = balance("M", "7");
    let u = apply_remote_info(&mut t, &info("So1...xyz", 3, None));
    assert_eq!(u, Some(UiAmountUpdate { raw: 7, decimals: 3 }));
    assert_eq!(t.symbol, "abc...");
    assert_eq!(t.name, "Unknown");
    assert_eq!(t.logo_uri.as_deref(), Some("old-logo"));
    let u = apply_remote_info(&mut t, &info("BONK", 0, Some("new-logo")));
    assert_eq!(u, None);
    assert_eq!(t.symbol, "BONK");
    assert_eq!(t.logo_uri.as_deref(), Some("new-logo"));
    assert_eq!(t.decimals, 3);
}

#[test]
fn metadata_lists_apply_per_balance() {
    let mut tokens = vec![balance("A", "100"), balance("B", "200"), balance("C", "300")];
    let updates = apply_local_metadata(&mut tokens, vec![Some(info("AAA", 2, None)), None, Some(info("CCC", 0, None))]);
    assert_eq!(updates, vec![Some(UiAmountUpdate { raw: 100, decimals: 2 }), None, None]);
    assert_eq!(tokens[0].symbol, "AAA");
    assert_eq!(tokens[1].symbol, "abc...");
    assert_eq!(tokens[2].symbol, "CCC");
    assert_eq!(tokens.iter().map(|t| t.mint.as_str()).collect::<Vec<_>>(), vec!["A", "B", "C"]);

    let updates = apply_remote_metadata(&mut tokens, vec![None, Some(info("B...", 5, Some("b"))), None]);
    assert_eq!(updates, vec![None, Some(UiAmountUpdate { raw: 200, decimals: 5 }), None]);
    assert_eq!(tokens[1].symbol, "abc...");
    assert_eq!(tokens[1].logo_uri.as_deref(), Some("b"));
}

#[test]
fn applying_metadata_twice_changes_nothing_more() {
    let mut tokens = vec![balance("A", "100"), balance("B", "x")];
    let infos = || vec![Some(info("AAA", 2, Some("l"))), Some(info("B...", 3, None))];
    let first = apply_local_metadata(&mut tokens, infos());
    let snapshot: Vec<_> = tokens.iter().map(|t| (t.symbol.clone(), t.name.clone(), t.decimals, t.logo_uri.clone())).collect();
    let second = apply_local_metadata(&mut tokens, infos());
    assert_eq!(first, second);
    let again: Vec<_> = tokens.iter().map(|t| (t.symbol.clone(), t.name.clone(), t.decimals, t.logo_uri.clone())).collect();
    assert_eq!(snapshot, again);
    let r1 = apply_remote_metadata(&mut tokens, infos());
    let after_remote: Vec<_> = tokens.iter().map(|t| (t.symbol.clone(), t.name.clone(), t.decimals, t.logo_uri.clone())).collect();
    let r2 = apply_remote_metadata(&mut tokens, infos());
    assert_eq!(r1, r2);
    let again: Vec<_> = tokens.iter().map(|t| (t.symbol.clone(), t.name.clone(), t.decimals, t.logo_uri.clone())).collect();
    assert_eq!(after_remote, again);
}
