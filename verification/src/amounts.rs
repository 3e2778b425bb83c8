//! Raw on-chain token amounts: 256-bit integers, their decimal text, and the
//! balance entry of a curated token.

use vstd::prelude::*;
use vstd::string::*;
use crate::codec::{u256_is_zero, u256_to_string};
use crate::models::{TokenBalance, ui_update_spec, UiAmountUpdate};
use crate::text::{all_decimal_digits, decimal_value, is_decimal_digit, parse_u64_spec};
use crate::tokens::{CuratedToken, opt_str_view};
use crate::wallet::opt_view;

verus! {

/// The value of a 256-bit integer given as four 64-bit limbs, least significant first.
pub open spec fn limbs_value(limbs: [u64; 4]) -> nat {
    (limbs[0] + limbs[1] * 0x1_0000_0000_0000_0000nat + limbs[2] * 0x1_0000_0000_0000_0000_0000_0000_0000_0000nat
        + limbs[3] * 0x1_0000_0000_0000_0000_0000_0000_0000_0000_0000_0000_0000_0000nat) as nat
}

/// The decimal digit character of a value below ten.
pub open spec fn digit_char(d: nat) -> char {
    if d == 0 { '0' }
    else if d == 1 { '1' }
    else if d == 2 { '2' }
    else if d == 3 { '3' }
    else if d == 4 { '4' }
    else if d == 5 { '5' }
    else if d == 6 { '6' }
    else if d == 7 { '7' }
    else if d == 8 { '8' }
    else { '9' }
}

/// The decimal text of a natural number: its digits, most significant first,
/// without leading zeros ("0" for zero).
pub open spec fn decimal_text(n: nat) -> Seq<char>
    decreases n,
{
    if n < 10 {
        seq![digit_char(n)]
    } else {
        decimal_text(n / 10).push(digit_char(n % 10))
    }
}

proof fn lemma_digit_char(d: nat)
    requires
        d < 10,
    ensures
        is_decimal_digit(digit_char(d)),
        (digit_char(d) as u32) - ('0' as u32) == d,
{
}

/// The decimal text is made of digits and denotes the number.
pub proof fn lemma_decimal_text(n: nat)
    ensures
        decimal_text(n).len() > 0,
        all_decimal_digits(decimal_text(n)),
        decimal_value(decimal_text(n)) == n,
    decreases n,
{
    if n < 10 {
        lemma_digit_char(n);
        assert(decimal_text(n).drop_last() =~= Seq::<char>::empty());
        assert(decimal_value(Seq::<char>::empty()) == 0);
        assert(decimal_text(n).last() == digit_char(n));
    } else {
        lemma_decimal_text(n / 10);
        lemma_digit_char(n % 10);
        let t = decimal_text(n);
        assert(t.drop_last() =~= decimal_text(n / 10));
        assert(t.last() == digit_char(n % 10));
        assert(decimal_value(t) == decimal_value(decimal_text(n / 10)) * 10 + (n % 10));
        assert(n == (n / 10) * 10 + n % 10);
        assert forall|i: int| 0 <= i < t.len() implies is_decimal_digit(#[trigger] t[i]) by {
            if i < t.len() - 1 {
                assert(t[i] == decimal_text(n / 10)[i]);
            }
        }
    }
}

/// A raw amount that fits in 64 bits reads back from its decimal text.
pub proof fn lemma_decimal_text_parses_back(n: nat)
    requires
        n <= u64::MAX,
    ensures
        parse_u64_spec(decimal_text(n)) == Some(n as u64),
{
    lemma_decimal_text(n);
    let t = decimal_text(n);
    assert(is_decimal_digit(t[0]));
}

/// `token_balance`: a curated token's balance entry for a raw amount, or
/// nothing for a zero amount.
pub open spec fn token_balance_spec(token: CuratedToken, raw: [u64; 4], b: TokenBalance) -> bool {
    &&& b.mint@ == token.address@
    &&& b.symbol@ == token.symbol@
    &&& b.name@ == token.name@
    &&& b.amount@ == decimal_text(limbs_value(raw))
    &&& b.decimals == token.decimals
    &&& opt_view(b.logo_uri) == opt_str_view(token.logo_uri)
}

/// The balance entry of a curated token holding `raw` base units; `None`
/// when nothing is held.
pub fn token_balance(token: &CuratedToken, raw: [u64; 4]) -> (r: Option<TokenBalance>)
    ensures
        limbs_value(raw) == 0 <==> r is None,
        r matches Some(b) ==> token_balance_spec(*token, raw, b),
{
    if u256_is_zero(raw) {
        return None;
    }
    Some(
        TokenBalance {
            mint: String::from_str(token.address),
            symbol: String::from_str(token.symbol),
            name: String::from_str(token.name),
            amount: u256_to_string(raw),
            decimals: token.decimals,
            logo_uri: match token.logo_uri {
                Some(s) => Some(String::from_str(s)),
                None => None,
            },
        },
    )
}

/// The display amount of a balance whose raw amount fits in 64 bits can
/// always be recomputed once metadata brings positive decimals.
pub proof fn lemma_balance_amount_feeds_ui_update(raw: [u64; 4], decimals: u8)
    requires
        limbs_value(raw) <= u64::MAX,
        decimals > 0,
    ensures
        ui_update_spec(decimal_text(limbs_value(raw)), decimals) == Some(
            UiAmountUpdate { raw: limbs_value(raw) as u64, decimals },
        ),
{
    lemma_decimal_text_parses_back(limbs_value(raw));
}

} // verus!
