//! Token descriptions: the curated ERC-20 list of the EVM networks and the
//! token metadata and balances shown in the portfolio.

use vstd::prelude::*;
use vstd::string::*;
use crate::network::NETWORK_ETHEREUM_MAINNET;
use crate::text::{ascii_lower, eq_ignore_ascii_case, eq_ignore_ascii_case_spec, str_equal};
use crate::wallet::opt_view;

verus! {

/// Metadata of a token: its mint (or contract address), names, decimals and logo.
#[derive(Clone, Debug)]
pub struct TokenInfo {
    pub mint: String,
    pub symbol: String,
    pub name: String,
    pub decimals: u8,
    pub logo_uri: Option<String>,
}

/// A token the wallet knows about without asking the network.
#[derive(Clone, Copy, Debug)]
pub struct CuratedToken {
    pub address: &'static str,
    pub symbol: &'static str,
    pub name: &'static str,
    pub decimals: u8,
    pub logo_uri: Option<&'static str>,
}

/// The view of an optional string slice.
pub open spec fn opt_str_view(s: Option<&str>) -> Option<Seq<char>> {
    match s {
        Some(v) => Some(v@),
        None => None,
    }
}

pub open spec fn curated(
    address: &'static str,
    symbol: &'static str,
    name: &'static str,
    decimals: u8,
    logo_uri: &'static str,
) -> CuratedToken {
    CuratedToken { address, symbol, name, decimals, logo_uri: Some(logo_uri) }
}

/// The curated tokens of Ethereum mainnet: WETH, USDC, USDT, DAI and WBTC.
pub open spec fn ethereum_mainnet_tokens() -> Seq<CuratedToken> {
    seq![
        curated("0xC02aaA39b223FE8D0A0e5C4F27eAD9083C756Cc2", "WETH", "Wrapped Ether", 18, "https://raw.githubusercontent.com/trustwallet/assets/master/blockchains/ethereum/assets/0xC02aaA39b223FE8D0A0e5C4F27eAD9083C756Cc2/logo.png"),
        curated("0xA0b86991c6218b36c1d19D4a2e9Eb0cE3606eB48", "USDC", "USD Coin", 6, "https://raw.githubusercontent.com/trustwallet/assets/master/blockchains/ethereum/assets/0xA0b86991c6218b36c1d19D4a2e9Eb0cE3606eB48/logo.png"),
        curated("0xdAC17F958D2ee523a2206206994597C13D831ec7", "USDT", "Tether USD", 6, "https://raw.githubusercontent.com/trustwallet/assets/master/blockchains/ethereum/assets/0xdAC17F958D2ee523a2206206994597C13D831ec7/logo.png"),
        curated("0x6B175474E89094C44Da98b954EedeAC495271d0F", "DAI", "Dai Stablecoin", 18, "https://raw.githubusercontent.com/trustwallet/assets/master/blockchains/ethereum/assets/0x6B175474E89094C44Da98b954EedeAC495271d0F/logo.png"),
        curated("0x2260FAC5E5542a773Aa44fBCfeDf7C193bc2C599", "WBTC", "Wrapped BTC", 8, "https://raw.githubusercontent.com/trustwallet/assets/master/blockchains/ethereum/assets/0x2260FAC5E5542a773Aa44fBCfeDf7C193bc2C599/logo.png"),
    ]
}

/// The curated tokens of a network: Ethereum mainnet has a list, others none.
pub open spec fn curated_tokens_spec(network_id: Seq<char>) -> Seq<CuratedToken> {
    if network_id == NETWORK_ETHEREUM_MAINNET@ {
        ethereum_mainnet_tokens()
    } else {
        Seq::empty()
    }
}

/// The curated tokens of `network_id`, in the order the list gives them.
pub fn curated_tokens(network_id: &str) -> (r: Vec<CuratedToken>)
    ensures
        r@ == curated_tokens_spec(network_id@),
{
    if str_equal(network_id, NETWORK_ETHEREUM_MAINNET) {
        let v = vec![
            CuratedToken {
                address: "0xC02aaA39b223FE8D0A0e5C4F27eAD9083C756Cc2",
                symbol: "WETH",
                name: "Wrapped Ether",
                decimals: 18,
                logo_uri: Some("https://raw.githubusercontent.com/trustwallet/assets/master/blockchains/ethereum/assets/0xC02aaA39b223FE8D0A0e5C4F27eAD9083C756Cc2/logo.png"),
            },
            CuratedToken {
                address: "0xA0b86991c6218b36c1d19D4a2e9Eb0cE3606eB48",
                symbol: "USDC",
                name: "USD Coin",
                decimals: 6,
                logo_uri: Some("https://raw.githubusercontent.com/trustwallet/assets/master/blockchains/ethereum/assets/0xA0b86991c6218b36c1d19D4a2e9Eb0cE3606eB48/logo.png"),
            },
            CuratedToken {
                address: "0xdAC17F958D2ee523a2206206994597C13D831ec7",
                symbol: "USDT",
                name: "Tether USD",
                decimals: 6,
                logo_uri: Some("https://raw.githubusercontent.com/trustwallet/assets/master/blockchains/ethereum/assets/0xdAC17F958D2ee523a2206206994597C13D831ec7/logo.png"),
            },
            CuratedToken {
                address: "0x6B175474E89094C44Da98b954EedeAC495271d0F",
                symbol: "DAI",
                name: "Dai Stablecoin",
                decimals: 18,
                logo_uri: Some("https://raw.githubusercontent.com/trustwallet/assets/master/blockchains/ethereum/assets/0x6B175474E89094C44Da98b954EedeAC495271d0F/logo.png"),
            },
            CuratedToken {
                address: "0x2260FAC5E5542a773Aa44fBCfeDf7C193bc2C599",
                symbol: "WBTC",
                name: "Wrapped BTC",
                decimals: 8,
                logo_uri: Some("https://raw.githubusercontent.com/trustwallet/assets/master/blockchains/ethereum/assets/0x2260FAC5E5542a773Aa44fBCfeDf7C193bc2C599/logo.png"),
            },
        ];
        proof {
            assert(v@ =~= ethereum_mainnet_tokens());
        }
        v
    } else {
        Vec::new()
    }
}

/// The metadata of a curated token, as owned strings.
pub fn token_info(token: &CuratedToken) -> (r: TokenInfo)
    ensures
        r.mint@ == token.address@,
        r.symbol@ == token.symbol@,
        r.name@ == token.name@,
        r.decimals == token.decimals,
        opt_view(r.logo_uri) == opt_str_view(token.logo_uri),
{
    TokenInfo {
        mint: String::from_str(token.address),
        symbol: String::from_str(token.symbol),
        name: String::from_str(token.name),
        decimals: token.decimals,
        logo_uri: match token.logo_uri {
            Some(s) => Some(String::from_str(s)),
            None => None,
        },
    }
}

/// The first token of `tokens` whose address matches `asset` ignoring ASCII case.
pub open spec fn first_by_address(tokens: Seq<CuratedToken>, asset: Seq<char>) -> Option<CuratedToken>
    decreases tokens.len(),
{
    if tokens.len() == 0 {
        None
    } else if eq_ignore_ascii_case_spec(tokens[0].address@, asset) {
        Some(tokens[0])
    } else {
        first_by_address(tokens.drop_first(), asset)
    }
}

/// `resolve_curated`: the native coin ("eth" or "native", any case) is no
/// token; anything else is looked up by contract address, ignoring case.
pub open spec fn resolve_curated_spec(network_id: Seq<char>, asset: Seq<char>) -> Option<CuratedToken> {
    if eq_ignore_ascii_case_spec(asset, seq!['e', 't', 'h']) || eq_ignore_ascii_case_spec(
        asset,
        seq!['n', 'a', 't', 'i', 'v', 'e'],
    ) {
        None
    } else {
        first_by_address(curated_tokens_spec(network_id), asset)
    }
}

proof fn lemma_first_by_address_skip(tokens: Seq<CuratedToken>, asset: Seq<char>, i: int)
    requires
        0 <= i < tokens.len(),
        !eq_ignore_ascii_case_spec(tokens[i].address@, asset),
    ensures
        first_by_address(tokens.subrange(i, tokens.len() as int), asset) == first_by_address(
            tokens.subrange(i + 1, tokens.len() as int),
            asset,
        ),
{
    assert(tokens.subrange(i, tokens.len() as int).drop_first() =~= tokens.subrange(
        i + 1,
        tokens.len() as int,
    ));
}

/// The curated token that `asset` names on `network_id`, if any.
pub fn resolve_curated(network_id: &str, asset: &str) -> (r: Option<CuratedToken>)
    ensures
        r == resolve_curated_spec(network_id@, asset@),
{
    let native = eq_ignore_ascii_case(asset, "eth") || eq_ignore_ascii_case(asset, "native");
    proof {
        reveal_strlit("eth");
        reveal_strlit("native");
        assert("eth"@ =~= seq!['e', 't', 'h']);
        assert("native"@ =~= seq!['n', 'a', 't', 'i', 'v', 'e']);
    }
    if native {
        return None;
    }
    let tokens = curated_tokens(network_id);
    let n = tokens.len();
    let mut i: usize = 0;
    proof {
        assert(tokens@.subrange(0, n as int) =~= tokens@);
    }
    while i < n
        invariant
            n == tokens@.len(),
            i <= n,
            tokens@ == curated_tokens_spec(network_id@),
            !(eq_ignore_ascii_case_spec(asset@, seq!['e', 't', 'h']) || eq_ignore_ascii_case_spec(
                asset@,
                seq!['n', 'a', 't', 'i', 'v', 'e'],
            )),
            first_by_address(tokens@.subrange(i as int, n as int), asset@) == first_by_address(
                tokens@,
                asset@,
            ),
        decreases n - i,
    {
        if eq_ignore_ascii_case(tokens[i].address, asset) {
            proof {
                let rest = tokens@.subrange(i as int, n as int);
                assert(rest[0] == tokens@[i as int]);
                assert(eq_ignore_ascii_case_spec(rest[0].address@, asset@));
                assert(first_by_address(rest, asset@) == Some(rest[0]));
            }
            return Some(tokens[i]);
        }
        proof {
            lemma_first_by_address_skip(tokens@, asset@, i as int);
        }
        i = i + 1;
    }
    None
}


proof fn lemma_eq_ignore_case_transfer(x: Seq<char>, a: Seq<char>, b: Seq<char>)
    requires
        eq_ignore_ascii_case_spec(a, b),
    ensures
        eq_ignore_ascii_case_spec(x, a) <==> eq_ignore_ascii_case_spec(x, b),
{
    if eq_ignore_ascii_case_spec(x, a) {
        assert forall|i: int| 0 <= i < x.len() implies ascii_lower(#[trigger] x[i]) == ascii_lower(b[i]) by {
            assert(ascii_lower(x[i]) == ascii_lower(a[i]));
            assert(ascii_lower(a[i]) == ascii_lower(b[i]));
        }
    }
    if eq_ignore_ascii_case_spec(x, b) {
        assert forall|i: int| 0 <= i < x.len() implies ascii_lower(#[trigger] x[i]) == ascii_lower(a[i]) by {
            assert(ascii_lower(x[i]) == ascii_lower(b[i]));
            assert(ascii_lower(a[i]) == ascii_lower(b[i]));
        }
    }
}

proof fn lemma_first_by_address_ignores_case(tokens: Seq<CuratedToken>, a: Seq<char>, b: Seq<char>)
    requires
        eq_ignore_ascii_case_spec(a, b),
    ensures
        first_by_address(tokens, a) == first_by_address(tokens, b),
    decreases tokens.len(),
{
    if tokens.len() > 0 {
        lemma_eq_ignore_case_transfer(tokens[0].address@, a, b);
        lemma_first_by_address_ignores_case(tokens.drop_first(), a, b);
    }
}

/// Assets that differ only in ASCII case resolve to the same curated token.
pub proof fn lemma_resolve_curated_ignores_case(network_id: Seq<char>, a: Seq<char>, b: Seq<char>)
    requires
        eq_ignore_ascii_case_spec(a, b),
    ensures
        resolve_curated_spec(network_id, a) == resolve_curated_spec(network_id, b),
{
    assert(eq_ignore_ascii_case_spec(b, a)) by {
        assert forall|i: int| 0 <= i < b.len() implies ascii_lower(#[trigger] b[i]) == ascii_lower(a[i]) by {
            assert(ascii_lower(a[i]) == ascii_lower(b[i]));
        }
    }
    lemma_eq_ignore_case_transfer(seq!['e', 't', 'h'], a, b);
    lemma_eq_ignore_case_transfer(seq!['n', 'a', 't', 'i', 'v', 'e'], a, b);
    lemma_eq_ignore_case_symmetric(a, seq!['e', 't', 'h']);
    lemma_eq_ignore_case_symmetric(b, seq!['e', 't', 'h']);
    lemma_eq_ignore_case_symmetric(a, seq!['n', 'a', 't', 'i', 'v', 'e']);
    lemma_eq_ignore_case_symmetric(b, seq!['n', 'a', 't', 'i', 'v', 'e']);
    lemma_first_by_address_ignores_case(curated_tokens_spec(network_id), a, b);
}

proof fn lemma_eq_ignore_case_symmetric(x: Seq<char>, y: Seq<char>)
    ensures
        eq_ignore_ascii_case_spec(x, y) <==> eq_ignore_ascii_case_spec(y, x),
{
    if eq_ignore_ascii_case_spec(x, y) {
        assert forall|i: int| 0 <= i < y.len() implies ascii_lower(#[trigger] y[i]) == ascii_lower(x[i]) by {
            assert(ascii_lower(x[i]) == ascii_lower(y[i]));
        }
    }
    if eq_ignore_ascii_case_spec(y, x) {
        assert forall|i: int| 0 <= i < x.len() implies ascii_lower(#[trigger] x[i]) == ascii_lower(y[i]) by {
            assert(ascii_lower(y[i]) == ascii_lower(x[i]));
        }
    }
}


/// What the ERC-20 contracts of the curated Ethereum-mainnet tokens report
/// (`symbol()`, `name()`, `decimals()`), by contract address in any case.
pub open spec fn mainnet_erc20_metadata(address: Seq<char>) -> Option<(Seq<char>, Seq<char>, u8)> {
    if eq_ignore_ascii_case_spec(address, "0xc02aaa39b223fe8d0a0e5c4f27ead9083c756cc2"@) {
        Some(("WETH"@, "Wrapped Ether"@, 18u8))
    } else if eq_ignore_ascii_case_spec(address, "0xa0b86991c6218b36c1d19d4a2e9eb0ce3606eb48"@) {
        Some(("USDC"@, "USD Coin"@, 6u8))
    } else if eq_ignore_ascii_case_spec(address, "0xdac17f958d2ee523a2206206994597c13d831ec7"@) {
        Some(("USDT"@, "Tether USD"@, 6u8))
    } else if eq_ignore_ascii_case_spec(address, "0x6b175474e89094c44da98b954eedeac495271d0f"@) {
        Some(("DAI"@, "Dai Stablecoin"@, 18u8))
    } else if eq_ignore_ascii_case_spec(address, "0x2260fac5e5542a773aa44fbcfedf7c193bc2c599"@) {
        Some(("WBTC"@, "Wrapped BTC"@, 8u8))
    } else {
        None
    }
}

proof fn lemma_ascii_lower_differs(x: Seq<char>, y: Seq<char>, k: int)
    requires
        0 <= k < x.len(),
        ascii_lower(x[k]) != ascii_lower(y[k]),
    ensures
        !eq_ignore_ascii_case_spec(x, y),
{
}

/// Every curated Ethereum-mainnet token carries the symbol, name and decimals
/// that its ERC-20 contract reports, so raw amounts are scaled by the
/// contract's own decimals.
pub proof fn lemma_curated_tokens_match_contracts(i: int)
    requires
        0 <= i < ethereum_mainnet_tokens().len(),
    ensures
        ({
            let t = ethereum_mainnet_tokens()[i];
            mainnet_erc20_metadata(t.address@) == Some((t.symbol@, t.name@, t.decimals))
        }),
{
    reveal_strlit("0xC02aaA39b223FE8D0A0e5C4F27eAD9083C756Cc2");
    reveal_strlit("0xc02aaa39b223fe8d0a0e5c4f27ead9083c756cc2");
    reveal_strlit("0xA0b86991c6218b36c1d19D4a2e9Eb0cE3606eB48");
    reveal_strlit("0xa0b86991c6218b36c1d19d4a2e9eb0ce3606eb48");
    reveal_strlit("0xdAC17F958D2ee523a2206206994597C13D831ec7");
    reveal_strlit("0xdac17f958d2ee523a2206206994597c13d831ec7");
    reveal_strlit("0x6B175474E89094C44Da98b954EedeAC495271d0F");
    reveal_strlit("0x6b175474e89094c44da98b954eedeac495271d0f");
    reveal_strlit("0x2260FAC5E5542a773Aa44fBCfeDf7C193bc2C599");
    reveal_strlit("0x2260fac5e5542a773aa44fbcfedf7c193bc2c599");
    let t = ethereum_mainnet_tokens()[i];
    let a = t.address@;
    assert(a.len() == 42);
    if i == 0 {
        assert(eq_ignore_ascii_case_spec(a, "0xc02aaa39b223fe8d0a0e5c4f27ead9083c756cc2"@));
    } else if i == 1 {
        lemma_ascii_lower_differs(a, "0xc02aaa39b223fe8d0a0e5c4f27ead9083c756cc2"@, 2);
        assert(eq_ignore_ascii_case_spec(a, "0xa0b86991c6218b36c1d19d4a2e9eb0ce3606eb48"@));
    } else if i == 2 {
        lemma_ascii_lower_differs(a, "0xc02aaa39b223fe8d0a0e5c4f27ead9083c756cc2"@, 2);
        lemma_ascii_lower_differs(a, "0xa0b86991c6218b36c1d19d4a2e9eb0ce3606eb48"@, 2);
        assert(eq_ignore_ascii_case_spec(a, "0xdac17f958d2ee523a2206206994597c13d831ec7"@));
    } else if i == 3 {
        lemma_ascii_lower_differs(a, "0xc02aaa39b223fe8d0a0e5c4f27ead9083c756cc2"@, 2);
        lemma_ascii_lower_differs(a, "0xa0b86991c6218b36c1d19d4a2e9eb0ce3606eb48"@, 2);
        lemma_ascii_lower_differs(a, "0xdac17f958d2ee523a2206206994597c13d831ec7"@, 2);
        assert(eq_ignore_ascii_case_spec(a, "0x6b175474e89094c44da98b954eedeac495271d0f"@));
    } else {
        lemma_ascii_lower_differs(a, "0xc02aaa39b223fe8d0a0e5c4f27ead9083c756cc2"@, 2);
        lemma_ascii_lower_differs(a, "0xa0b86991c6218b36c1d19d4a2e9eb0ce3606eb48"@, 2);
        lemma_ascii_lower_differs(a, "0xdac17f958d2ee523a2206206994597c13d831ec7"@, 2);
        lemma_ascii_lower_differs(a, "0x6b175474e89094c44da98b954eedeac495271d0f"@, 2);
        assert(eq_ignore_ascii_case_spec(a, "0x2260fac5e5542a773aa44fbcfedf7c193bc2c599"@));
    }
}


/// The lookup returns the first token whose address matches the asset
/// ignoring ASCII case, whatever the list.
pub proof fn lemma_first_by_address_finds_first_match(tokens: Seq<CuratedToken>, asset: Seq<char>, i: int)
    requires
        0 <= i < tokens.len(),
        eq_ignore_ascii_case_spec(tokens[i].address@, asset),
        forall|j: int| 0 <= j < i ==> !eq_ignore_ascii_case_spec(#[trigger] tokens[j].address@, asset),
    ensures
        first_by_address(tokens, asset) == Some(tokens[i]),
    decreases i,
{
    if i > 0 {
        assert(!eq_ignore_ascii_case_spec(tokens[0].address@, asset));
        assert forall|j: int| 0 <= j < i - 1 implies !eq_ignore_ascii_case_spec(
            #[trigger] tokens.drop_first()[j].address@,
            asset,
        ) by {
            assert(tokens.drop_first()[j] == tokens[j + 1]);
        }
        lemma_first_by_address_finds_first_match(tokens.drop_first(), asset, i - 1);
    }
}

/// The lookup finds nothing exactly when no address matches, and what it
/// finds is a listed token whose address matches.
pub proof fn lemma_first_by_address_result(tokens: Seq<CuratedToken>, asset: Seq<char>)
    ensures
        first_by_address(tokens, asset) is None <==> forall|j: int|
            0 <= j < tokens.len() ==> !eq_ignore_ascii_case_spec(#[trigger] tokens[j].address@, asset),
        first_by_address(tokens, asset) matches Some(t) ==> tokens.contains(t)
            && eq_ignore_ascii_case_spec(t.address@, asset),
    decreases tokens.len(),
{
    if tokens.len() > 0 {
        lemma_first_by_address_result(tokens.drop_first(), asset);
        if !eq_ignore_ascii_case_spec(tokens[0].address@, asset) {
            if first_by_address(tokens, asset) is None {
                assert forall|j: int| 0 <= j < tokens.len() implies !eq_ignore_ascii_case_spec(
                    #[trigger] tokens[j].address@,
                    asset,
                ) by {
                    if j > 0 {
                        assert(tokens.drop_first()[j - 1] == tokens[j]);
                    }
                }
            } else {
                let t = first_by_address(tokens, asset).unwrap();
                let k = choose|k: int| 0 <= k < tokens.drop_first().len() && tokens.drop_first()[k] == t;
                assert(tokens[k + 1] == t);
            }
        } else {
            assert(tokens[0] == tokens[0]);
        }
    }
}

/// `resolve_curated`: a non-native asset resolves to the first curated token
/// of the network whose address it names, ignoring ASCII case.
pub proof fn lemma_resolve_curated_first_match(network_id: Seq<char>, asset: Seq<char>, i: int)
    requires
        !eq_ignore_ascii_case_spec(asset, seq!['e', 't', 'h']),
        !eq_ignore_ascii_case_spec(asset, seq!['n', 'a', 't', 'i', 'v', 'e']),
        0 <= i < curated_tokens_spec(network_id).len(),
        eq_ignore_ascii_case_spec(curated_tokens_spec(network_id)[i].address@, asset),
        forall|j: int|
            0 <= j < i ==> !eq_ignore_ascii_case_spec(
                #[trigger] curated_tokens_spec(network_id)[j].address@,
                asset,
            ),
    ensures
        resolve_curated_spec(network_id, asset) == Some(curated_tokens_spec(network_id)[i]),
{
    lemma_first_by_address_finds_first_match(curated_tokens_spec(network_id), asset, i);
}

/// What `resolve_curated` returns is a curated token of the network whose
/// address matches the asset; it returns nothing for the native coin or an
/// address of no curated token.
pub proof fn lemma_resolve_curated_result(network_id: Seq<char>, asset: Seq<char>)
    ensures
        resolve_curated_spec(network_id, asset) matches Some(t) ==> curated_tokens_spec(
            network_id,
        ).contains(t) && eq_ignore_ascii_case_spec(t.address@, asset),
        eq_ignore_ascii_case_spec(asset, seq!['e', 't', 'h']) ==> resolve_curated_spec(network_id, asset) is None,
        eq_ignore_ascii_case_spec(asset, seq!['n', 'a', 't', 'i', 'v', 'e']) ==> resolve_curated_spec(
            network_id,
            asset,
        ) is None,
        (forall|j: int|
            0 <= j < curated_tokens_spec(network_id).len() ==> !eq_ignore_ascii_case_spec(
                #[trigger] curated_tokens_spec(network_id)[j].address@,
                asset,
            )) ==> resolve_curated_spec(network_id, asset) is None,
{
    lemma_first_by_address_result(curated_tokens_spec(network_id), asset);
}

/// Every curated token's own address, in any case, resolves to that token.
pub proof fn lemma_curated_addresses_resolve(network_id: Seq<char>, i: int)
    requires
        0 <= i < curated_tokens_spec(network_id).len(),
    ensures
        resolve_curated_spec(network_id, curated_tokens_spec(network_id)[i].address@) == Some(
            curated_tokens_spec(network_id)[i],
        ),
{
    let tokens = curated_tokens_spec(network_id);
    assert(network_id == NETWORK_ETHEREUM_MAINNET@);
    reveal_strlit("0xC02aaA39b223FE8D0A0e5C4F27eAD9083C756Cc2");
    reveal_strlit("0xA0b86991c6218b36c1d19D4a2e9Eb0cE3606eB48");
    reveal_strlit("0xdAC17F958D2ee523a2206206994597C13D831ec7");
    reveal_strlit("0x6B175474E89094C44Da98b954EedeAC495271d0F");
    reveal_strlit("0x2260FAC5E5542a773Aa44fBCfeDf7C193bc2C599");
    let a = tokens[i].address@;
    assert(a.len() == 42);
    assert(!eq_ignore_ascii_case_spec(a, seq!['e', 't', 'h']));
    assert(!eq_ignore_ascii_case_spec(a, seq!['n', 'a', 't', 'i', 'v', 'e']));
    assert forall|j: int| 0 <= j < i implies !eq_ignore_ascii_case_spec(#[trigger] tokens[j].address@, a) by {
        lemma_ascii_lower_differs(tokens[j].address@, a, 2);
    }
    lemma_resolve_curated_first_match(network_id, a, i);
}

} // verus!
