//! Results of chain operations and the token balances of the portfolio, with
//! the merging of token metadata into a balance.

use vstd::prelude::*;
use crate::text::{contains_spec, contains_str, parse_u64, parse_u64_spec};
use crate::tokens::TokenInfo;
use crate::wallet::opt_view;

verus! {

/// A submitted transfer.
pub struct SendResult {
    pub txid: String,
    pub status: String,
}

/// A submitted swap.
pub struct SwapResult {
    pub signature: String,
    pub status: String,
}

/// A token holding, in the units the chain reports: `amount` is the raw
/// integer amount as text, `decimals` places the decimal point. The display
/// amount and the USD figures are derived from these outside the library.
pub struct TokenBalance {
    pub mint: String,
    pub symbol: String,
    pub name: String,
    pub amount: String,
    pub decimals: u8,
    pub logo_uri: Option<String>,
}

/// A request to recompute a balance's display amount as `raw / 10^decimals`.
#[derive(Clone, Copy, Debug, PartialEq, Eq, Structural)]
pub struct UiAmountUpdate {
    pub raw: u64,
    pub decimals: u8,
}

/// When metadata brings positive decimals and the raw amount parses as a
/// `u64`, the display amount is recomputed from them.
pub open spec fn ui_update_spec(amount: Seq<char>, info_decimals: u8) -> Option<UiAmountUpdate> {
    if info_decimals > 0 && parse_u64_spec(amount) is Some {
        Some(UiAmountUpdate { raw: parse_u64_spec(amount)->0, decimals: info_decimals })
    } else {
        None
    }
}

/// The part of a balance that metadata never changes.
pub open spec fn same_holding(a: &TokenBalance, b: &TokenBalance) -> bool {
    a.mint@ == b.mint@ && a.amount@ == b.amount@
}

/// The text "..." that marks a truncated remote symbol.
pub open spec fn ellipsis() -> Seq<char> {
    seq!['.', '.', '.']
}

/// Local metadata (the bundled token list) overwrites symbol, name and logo,
/// and positive decimals.
pub open spec fn local_info_applied(old: &TokenBalance, new: &TokenBalance, info: &TokenInfo) -> bool {
    &&& same_holding(old, new)
    &&& new.symbol@ == info.symbol@
    &&& new.name@ == info.name@
    &&& new.decimals == if info.decimals > 0 {
        info.decimals
    } else {
        old.decimals
    }
    &&& opt_view(new.logo_uri) == opt_view(info.logo_uri)
}

/// Remote metadata overwrites symbol and name unless its symbol is truncated
/// ("..."), positive decimals, and the logo only where it has one.
pub open spec fn remote_info_applied(old: &TokenBalance, new: &TokenBalance, info: &TokenInfo) -> bool {
    &&& same_holding(old, new)
    &&& if contains_spec(info.symbol@, ellipsis()) {
        new.symbol@ == old.symbol@ && new.name@ == old.name@
    } else {
        new.symbol@ == info.symbol@ && new.name@ == info.name@
    }
    &&& new.decimals == if info.decimals > 0 {
        info.decimals
    } else {
        old.decimals
    }
    &&& opt_view(new.logo_uri) == if info.logo_uri is Some {
        opt_view(info.logo_uri)
    } else {
        opt_view(old.logo_uri)
    }
}

/// Merges bundled token metadata into a balance; returns the display-amount
/// update it calls for.
pub fn apply_local_info(token: &mut TokenBalance, info: TokenInfo) -> (r: Option<UiAmountUpdate>)
    ensures
        local_info_applied(old(token), final(token), &info),
        r == ui_update_spec(old(token).amount@, info.decimals),
{
    let ghost info0 = info;
    token.symbol = info.symbol;
    token.name = info.name;
    let mut update: Option<UiAmountUpdate> = None;
    if info.decimals > 0 {
        token.decimals = info.decimals;
        if let Some(raw) = parse_u64(token.amount.as_str()) {
            update = Some(UiAmountUpdate { raw, decimals: info.decimals });
        }
    }
    token.logo_uri = info.logo_uri;
    proof {
        assert(local_info_applied(old(token), token, &info0));
    }
    update
}

/// Merges token metadata from the network into a balance; returns the
/// display-amount update it calls for.
pub fn apply_remote_info(token: &mut TokenBalance, info: &TokenInfo) -> (r: Option<UiAmountUpdate>)
    ensures
        remote_info_applied(old(token), final(token), info),
        r == ui_update_spec(old(token).amount@, info.decimals),
{
    proof {
        reveal_strlit("...");
        assert("..."@ =~= ellipsis());
    }
    if !contains_str(info.symbol.as_str(), "...") {
        token.symbol = info.symbol.clone();
        token.name = info.name.clone();
    }
    let mut update: Option<UiAmountUpdate> = None;
    if info.decimals > 0 {
        token.decimals = info.decimals;
        if let Some(raw) = parse_u64(token.amount.as_str()) {
            update = Some(UiAmountUpdate { raw, decimals: info.decimals });
        }
    }
    match &info.logo_uri {
        Some(l) => {
            token.logo_uri = Some(l.clone());
        },
        None => {},
    }
    update
}


/// What metadata lookup found for each balance, applied in place: balances
/// without metadata are left as they are. Returns, per balance, the
/// display-amount update it calls for.
pub open spec fn metadata_applied(
    old: Seq<TokenBalance>,
    new: Seq<TokenBalance>,
    infos: Seq<Option<TokenInfo>>,
    updates: Seq<Option<UiAmountUpdate>>,
    remote: bool,
) -> bool {
    &&& new.len() == old.len()
    &&& updates.len() == old.len()
    &&& forall|i: int|
        #![trigger new[i]]
        0 <= i < old.len() ==> entry_applied(old[i], new[i], infos[i], updates[i], remote)
}

/// One balance before and after its metadata (if any) was applied.
pub open spec fn entry_applied(
    old: TokenBalance,
    new: TokenBalance,
    info: Option<TokenInfo>,
    update: Option<UiAmountUpdate>,
    remote: bool,
) -> bool {
    match info {
        Some(info) => {
            &&& if remote {
                remote_info_applied(&old, &new, &info)
            } else {
                local_info_applied(&old, &new, &info)
            }
            &&& update == ui_update_spec(old.amount@, info.decimals)
        },
        None => new == old && update is None,
    }
}

fn apply_metadata(
    tokens: &mut Vec<TokenBalance>,
    infos: Vec<Option<TokenInfo>>,
    remote: bool,
) -> (r: Vec<Option<UiAmountUpdate>>)
    requires
        infos@.len() == old(tokens)@.len(),
    ensures
        metadata_applied(old(tokens)@, final(tokens)@, infos@, r@, remote),
{
    let ghost old_tokens = tokens@;
    let ghost infos0 = infos@;
    let mut pending: Vec<TokenBalance> = Vec::new();
    std::mem::swap(&mut pending, tokens);
    let mut infos = infos;
    let mut updates: Vec<Option<UiAmountUpdate>> = Vec::new();
    let n = pending.len();
    let mut i: usize = 0;
    proof {
        assert(pending@.subrange(0, n as int) =~= pending@);
        assert(infos@.subrange(0, n as int) =~= infos@);
    }
    while i < n
        invariant
            n == old_tokens.len(),
            n == infos0.len(),
            i <= n,
            pending@ == old_tokens.subrange(i as int, n as int),
            infos@ == infos0.subrange(i as int, n as int),
            tokens@.len() == i,
            updates@.len() == i,
            forall|k: int|
                #![trigger tokens@[k]]
                0 <= k < i ==> entry_applied(old_tokens[k], tokens@[k], infos0[k], updates@[k], remote),
        decreases n - i,
    {
        let mut t = pending.remove(0);
        let info = infos.remove(0);
        proof {
            assert(t == old_tokens[i as int]);
            assert(info == infos0[i as int]);
            assert(pending@ =~= old_tokens.subrange(i + 1, n as int));
            assert(infos@ =~= infos0.subrange(i + 1, n as int));
        }
        let ghost t0 = t;
        let ghost tokens_before = tokens@;
        let ghost updates_before = updates@;
        let u = match info {
            Some(inf) => {
                if remote {
                    apply_remote_info(&mut t, &inf)
                } else {
                    apply_local_info(&mut t, inf)
                }
            },
            None => None,
        };
        let ghost t1 = t;
        tokens.push(t);
        updates.push(u);
        proof {
            assert(tokens@ == tokens_before.push(t1));
            assert(updates@ == updates_before.push(u));
            assert forall|k: int| 0 <= k < i + 1 implies #[trigger] tokens@[k] == (if k < i {
                tokens_before[k]
            } else {
                t1
            }) by {}
            match infos0[i as int] {
                Some(inf) => {
                    if remote {
                        assert(remote_info_applied(&old_tokens[i as int], &tokens@[i as int], &inf));
                    } else {
                        assert(local_info_applied(&old_tokens[i as int], &tokens@[i as int], &inf));
                    }
                },
                None => {},
            }
            assert forall|k: int| #![trigger tokens@[k]] 0 <= k < i + 1 implies entry_applied(
                old_tokens[k],
                tokens@[k],
                infos0[k],
                updates@[k],
                remote,
            ) by {
                if k < i {
                    assert(tokens@[k] == tokens_before[k]);
                    assert(updates@[k] == updates_before[k]);
                } else {
                    assert(tokens@[k] == t1);
                    assert(updates@[k] == u);
                }
            }
        }
        i = i + 1;
    }
    updates
}

/// `apply_local_metadata`: merges the bundled metadata found for each balance
/// (`local_info[i]` belongs to `tokens[i]`).
pub fn apply_local_metadata(tokens: &mut Vec<TokenBalance>, local_info: Vec<Option<TokenInfo>>) -> (r: Vec<
    Option<UiAmountUpdate>,
>)
    requires
        local_info@.len() == old(tokens)@.len(),
    ensures
        metadata_applied(old(tokens)@, final(tokens)@, local_info@, r@, false),
{
    apply_metadata(tokens, local_info, false)
}

/// Merges the metadata the network returned for each balance
/// (`remote_info[i]` belongs to `tokens[i]`).
pub fn apply_remote_metadata(tokens: &mut Vec<TokenBalance>, remote_info: Vec<Option<TokenInfo>>) -> (r: Vec<
    Option<UiAmountUpdate>,
>)
    requires
        remote_info@.len() == old(tokens)@.len(),
    ensures
        metadata_applied(old(tokens)@, final(tokens)@, remote_info@, r@, true),
{
    apply_metadata(tokens, remote_info, true)
}


/// The fields of a balance, as values.
pub open spec fn balance_fields(t: TokenBalance) -> (
    Seq<char>,
    Seq<char>,
    Seq<char>,
    Seq<char>,
    u8,
    Option<Seq<char>>,
) {
    (t.mint@, t.symbol@, t.name@, t.amount@, t.decimals, opt_view(t.logo_uri))
}

/// Applying the same metadata a second time changes no balance and calls
/// for the same display-amount updates.
pub proof fn lemma_metadata_idempotent(
    t0: Seq<TokenBalance>,
    t1: Seq<TokenBalance>,
    t2: Seq<TokenBalance>,
    infos: Seq<Option<TokenInfo>>,
    u1: Seq<Option<UiAmountUpdate>>,
    u2: Seq<Option<UiAmountUpdate>>,
    remote: bool,
)
    requires
        metadata_applied(t0, t1, infos, u1, remote),
        metadata_applied(t1, t2, infos, u2, remote),
    ensures
        t2.len() == t1.len(),
        forall|i: int| 0 <= i < t1.len() ==> balance_fields(#[trigger] t2[i]) == balance_fields(t1[i]),
        u2 == u1,
{
    assert forall|i: int| 0 <= i < t1.len() implies balance_fields(#[trigger] t2[i]) == balance_fields(
        t1[i],
    ) && u2[i] == u1[i] by {
        assert(entry_applied(t0[i], t1[i], infos[i], u1[i], remote));
        assert(entry_applied(t1[i], t2[i], infos[i], u2[i], remote));
    }
    assert forall|i: int| 0 <= i < u1.len() implies #[trigger] u2[i] == u1[i] by {
        assert(entry_applied(t0[i], t1[i], infos[i], u1[i], remote));
        assert(entry_applied(t1[i], t2[i], infos[i], u2[i], remote));
    }
    assert(u2 =~= u1);
}


/// Remote metadata with an untruncated symbol renames the balance: symbol and
/// name both become the metadata's; a truncated symbol ("...") leaves both as
/// they were. Positive decimals replace the balance's, and a logo replaces
/// the old one only when the metadata has one.
pub proof fn lemma_remote_info_renames(old: TokenBalance, new: TokenBalance, info: TokenInfo)
    requires
        remote_info_applied(&old, &new, &info),
    ensures
        !contains_spec(info.symbol@, seq!['.', '.', '.']) ==> new.symbol@ == info.symbol@
            && new.name@ == info.name@,
        contains_spec(info.symbol@, seq!['.', '.', '.']) ==> new.symbol@ == old.symbol@
            && new.name@ == old.name@,
        info.decimals > 0 ==> new.decimals == info.decimals,
        info.decimals == 0 ==> new.decimals == old.decimals,
        info.logo_uri matches Some(l) ==> new.logo_uri matches Some(n) && n@ == l@,
        info.logo_uri is None ==> opt_view(new.logo_uri) == opt_view(old.logo_uri),
        new.mint@ == old.mint@ && new.amount@ == old.amount@,
{
    assert(ellipsis() =~= seq!['.', '.', '.']);
}

/// Local metadata always renames the balance and takes over its logo (even
/// an absent one); positive decimals replace the balance's.
pub proof fn lemma_local_info_renames(old: TokenBalance, new: TokenBalance, info: TokenInfo)
    requires
        local_info_applied(&old, &new, &info),
    ensures
        new.symbol@ == info.symbol@ && new.name@ == info.name@,
        opt_view(new.logo_uri) == opt_view(info.logo_uri),
        info.decimals > 0 ==> new.decimals == info.decimals,
        info.decimals == 0 ==> new.decimals == old.decimals,
        new.mint@ == old.mint@ && new.amount@ == old.amount@,
{
}

/// A display-amount update is asked for exactly when the metadata brings
/// positive decimals and the raw amount is a `u64`; it then carries that
/// raw amount and those decimals.
pub proof fn lemma_ui_update_exactly_when_parsable(amount: Seq<char>, decimals: u8)
    ensures
        ui_update_spec(amount, decimals) is Some <==> (decimals > 0 && parse_u64_spec(amount) is Some),
        ui_update_spec(amount, decimals) matches Some(u) ==> u.decimals == decimals && Some(u.raw)
            == parse_u64_spec(amount),
{
}

} // verus!
