use taurvia_wallet::amounts::token_balance;
use taurvia_wallet::text::parse_u64;
use taurvia_wallet::tokens::curated_tokens;

#[test]
fn zero_balance_is_no_entry() {
    let usdc = curated_tokens("ethereum-mainnet")[1];
    assert!(token_balance(&usdc, [0, 0, 0, 0]).is_none());
}

#[test]
fn balance_carries_decimal_raw_amount() {
    let usdc = curated_tokens("ethereum-mainnet")[1];
    let b = token_balance(&usdc, [1_500_000, 0, 0, 0]).unwrap();
    assert_eq!(b.amount, "1500000");
    assert_eq!(b.mint, "0xA0b86991c6218b36c1d19D4a2e9Eb0cE3606eB48");
    assert_eq!(b.symbol, "USDC");
    assert_eq!(b.name, "USD Coin");
    assert_eq!(b.decimals, 6);
    assert_eq!(b.logo_uri.as_deref(), usdc.logo_uri);
    assert_eq!(parse_u64(&b.amount), Some(1_500_000));
}

#[test]
fn balance_above_64_bits() {
    let weth = curated_tokens("ethereum-mainnet")[0];
    let b = token_balance(&weth, [0, 1, 0, 0]).unwrap();
    assert_eq!(b.amount, "18446744073709551616");
    assert_eq!(parse_u64(&b.amount), None);
    let max = token_balance(&weth, [u64::MAX; 4]).unwrap();
    assert_eq!(
        max.amount,
        "115792089237316195423570985008687907853269984665640564039457584007913129639935"
    );
}
