//! The decisions the wallet service takes before it talks to a chain: what a
//! snapshot or an activity request fetches, where a transfer goes, which
//! public key is shown, and which mints are priced.

use vstd::prelude::*;
use vstd::string::*;
use crate::keyring::FamilyKeyring;
use crate::network::{ChainFamily, NetworkDescriptor};
use crate::settings::WalletError;
use crate::text::{eq_ignore_ascii_case, eq_ignore_ascii_case_spec, str_equal};
use crate::wallet::{opt_view, WalletFile};

verus! {

/// Mint of wrapped SOL, under which price services quote SOL itself.
pub const WRAPPED_SOL_MINT: &'static str = "So11111111111111111111111111111111111111112";

/// The part of a wallet snapshot that needs no chain data.
pub struct SnapshotHeader {
    pub exists: bool,
    pub unlocked: bool,
    /// Active network id.
    pub network: String,
    /// Active-chain receive address.
    pub public_key: Option<String>,
    pub native_symbol: String,
}

/// What a snapshot request comes to.
pub enum SnapshotPlan {
    /// A snapshot without balances or prices.
    Ready(SnapshotHeader),
    /// Balances and prices are fetched from the chain of this family.
    Fetch(ChainFamily),
}

/// `get_snapshot`: without a wallet, or while it is locked, the snapshot
/// carries no chain data (and without a wallet no public key); an unlocked
/// wallet fetches from its family's chain, except Sui, which is refused.
pub fn snapshot_plan(
    exists: bool,
    unlocked: bool,
    network: String,
    public_key: Option<String>,
    desc: &NetworkDescriptor,
) -> (r: Result<SnapshotPlan, WalletError>)
    ensures
        !exists ==> (r matches Ok(SnapshotPlan::Ready(h)) && !h.exists && !h.unlocked
            && h.network@ == network@ && h.public_key is None && h.native_symbol@
            == desc.native_symbol@),
        exists && !unlocked ==> (r matches Ok(SnapshotPlan::Ready(h)) && h.exists && !h.unlocked
            && h.network@ == network@ && opt_view(h.public_key) == opt_view(public_key)
            && h.native_symbol@ == desc.native_symbol@),
        exists && unlocked && desc.family != ChainFamily::Sui ==> (r matches Ok(
            SnapshotPlan::Fetch(f),
        ) && f == desc.family),
        exists && unlocked && desc.family == ChainFamily::Sui ==> r == Err::<
            SnapshotPlan,
            WalletError,
        >(WalletError::FamilyNotEnabled),
{
    if !exists {
        return Ok(
            SnapshotPlan::Ready(
                SnapshotHeader {
                    exists: false,
                    unlocked: false,
                    network,
                    public_key: None,
                    native_symbol: String::from_str(desc.native_symbol),
                },
            ),
        );
    }
    if !unlocked {
        return Ok(
            SnapshotPlan::Ready(
                SnapshotHeader {
                    exists: true,
                    unlocked: false,
                    network,
                    public_key,
                    native_symbol: String::from_str(desc.native_symbol),
                },
            ),
        );
    }
    match desc.family {
        ChainFamily::Sui => Err(WalletError::FamilyNotEnabled),
        f => Ok(SnapshotPlan::Fetch(f)),
    }
}

/// Where a transfer is built.
#[derive(Debug)]
pub enum SendRoute {
    /// Native SOL transfer.
    SolNative,
    /// SPL token transfer of this mint.
    SplToken(String),
    /// EVM transfer (native or ERC-20, decided by the asset).
    Evm,
    /// Bitcoin transfer.
    Bitcoin,
}

/// On Solana the asset is the native coin when absent or "sol" / "native" in any case.
pub open spec fn is_native_sol_asset(asset: Option<Seq<char>>) -> bool {
    match asset {
        None => true,
        Some(a) => eq_ignore_ascii_case_spec(a, seq!['s', 'o', 'l'])
            || eq_ignore_ascii_case_spec(a, seq!['n', 'a', 't', 'i', 'v', 'e']),
    }
}

/// `preview_send` / `send_transfer`: the route of a transfer of `asset` on a
/// network of `family`. Sui is refused.
pub fn send_route(family: ChainFamily, asset: Option<&str>) -> (r: Result<SendRoute, WalletError>)
    ensures
        family == ChainFamily::Solana ==> {
            let a = match asset {
                Some(s) => Some(s@),
                None => None,
            };
            if is_native_sol_asset(a) {
                r matches Ok(SendRoute::SolNative)
            } else {
                (r matches Ok(SendRoute::SplToken(m)) && m@ == a->0)
            }
        },
        family == ChainFamily::Evm ==> r matches Ok(SendRoute::Evm),
        family == ChainFamily::Bitcoin ==> r matches Ok(SendRoute::Bitcoin),
        family == ChainFamily::Sui ==> r == Err::<SendRoute, WalletError>(
            WalletError::FamilyNotEnabled,
        ),
{
    match family {
        ChainFamily::Solana => {
            proof {
                reveal_strlit("sol");
                reveal_strlit("native");
                assert("sol"@ =~= seq!['s', 'o', 'l']);
                assert("native"@ =~= seq!['n', 'a', 't', 'i', 'v', 'e']);
            }
            match asset {
                None => Ok(SendRoute::SolNative),
                Some(a) => {
                    if eq_ignore_ascii_case(a, "sol") || eq_ignore_ascii_case(a, "native") {
                        Ok(SendRoute::SolNative)
                    } else {
                        Ok(SendRoute::SplToken(String::from_str(a)))
                    }
                },
            }
        },
        ChainFamily::Evm => Ok(SendRoute::Evm),
        ChainFamily::Bitcoin => Ok(SendRoute::Bitcoin),
        ChainFamily::Sui => Err(WalletError::FamilyNotEnabled),
    }
}

/// `get_public_key`: an unlocked session answers from its keys; otherwise the
/// wallet file's address for the family, and for Solana its public key.
pub open spec fn public_key_spec(
    keyring: Option<&FamilyKeyring>,
    desc: NetworkDescriptor,
    wallet: Option<&WalletFile>,
) -> Option<Seq<char>> {
    match keyring {
        Some(k) => Some(k.address_spec(desc.family, desc.is_testnet)),
        None => match wallet {
            None => None,
            Some(w) => match w.addresses.address_of(desc.family) {
                Some(a) => Some(a),
                None => if desc.family == ChainFamily::Solana {
                    Some(w.public_key@)
                } else {
                    None
                },
            },
        },
    }
}

/// The receive address shown for the active network `desc`.
pub fn public_key_for(
    keyring: Option<&FamilyKeyring>,
    desc: &NetworkDescriptor,
    wallet: Option<&WalletFile>,
) -> (r: Option<String>)
    ensures
        opt_view(r) == public_key_spec(keyring, *desc, wallet),
{
    if let Some(k) = keyring {
        return Some(k.address(desc.family, desc.is_testnet));
    }
    match wallet {
        None => None,
        Some(w) => {
            match w.addresses.get(desc.family) {
                Some(a) => Some(String::from_str(a)),
                None => {
                    if desc.family == ChainFamily::Solana {
                        Some(w.public_key.clone())
                    } else {
                        None
                    }
                },
            }
        },
    }
}

/// The views of a list of strings.
pub open spec fn strings_view(v: Seq<String>) -> Seq<Seq<char>> {
    v.map_values(|s: String| s@)
}

/// The mints whose metadata and prices are fetched: the held mints, then
/// wrapped SOL unless it is held, so the native coin is always priced.
pub open spec fn pricing_mints_spec(mints: Seq<Seq<char>>) -> Seq<Seq<char>> {
    if mints.contains(WRAPPED_SOL_MINT@) {
        mints
    } else {
        mints.push(WRAPPED_SOL_MINT@)
    }
}

/// The mints to enrich, from the mints of the held tokens.
pub fn pricing_mints(mints: Vec<String>) -> (r: Vec<String>)
    ensures
        strings_view(r@) == pricing_mints_spec(strings_view(mints@)),
{
    let n = mints.len();
    let mut i: usize = 0;
    let mut found = false;
    while i < n && !found
        invariant
            n == mints@.len(),
            i <= n,
            found ==> (i < n && mints@[i as int]@ == WRAPPED_SOL_MINT@),
            !found ==> forall|k: int| 0 <= k < i ==> #[trigger] mints@[k]@ != WRAPPED_SOL_MINT@,
        decreases (n - i) * 2 + if found { 0int } else { 1int },
    {
        if str_equal(mints[i].as_str(), WRAPPED_SOL_MINT) {
            found = true;
        } else {
            i = i + 1;
        }
    }
    let ghost before = strings_view(mints@);
    proof {
        if found {
            assert(before[i as int] == WRAPPED_SOL_MINT@);
        } else {
            assert forall|k: int| 0 <= k < before.len() implies before[k] != WRAPPED_SOL_MINT@ by {
                assert(before[k] == mints@[k]@);
            }
        }
    }
    let mut out = mints;
    if !found {
        out.push(String::from_str(WRAPPED_SOL_MINT));
        proof {
            assert(strings_view(out@) =~= before.push(WRAPPED_SOL_MINT@));
        }
    }
    out
}


/// The native coin is always priced, the held mints keep their order in
/// front, and nothing else is added.
pub proof fn lemma_pricing_mints_cover_sol(mints: Seq<Seq<char>>)
    ensures
        pricing_mints_spec(mints).contains(WRAPPED_SOL_MINT@),
        pricing_mints_spec(mints).subrange(0, mints.len() as int) == mints,
        pricing_mints_spec(mints).len() <= mints.len() + 1,
{
    if !mints.contains(WRAPPED_SOL_MINT@) {
        assert(mints.push(WRAPPED_SOL_MINT@)[mints.len() as int] == WRAPPED_SOL_MINT@);
        assert(mints.push(WRAPPED_SOL_MINT@).subrange(0, mints.len() as int) =~= mints);
    } else {
        assert(mints.subrange(0, mints.len() as int) =~= mints);
    }
}


/// The receive address shown: an open session answers from its own keys for
/// every family; without one, the wallet file's recorded address for the
/// active family is shown whatever the family, a Solana network falls back
/// to the file's public key, and with neither keys nor file there is none.
pub proof fn lemma_public_key_sources(
    keyring: Option<&FamilyKeyring>,
    desc: NetworkDescriptor,
    wallet: Option<&WalletFile>,
)
    ensures
        keyring matches Some(k) ==> public_key_spec(keyring, desc, wallet) == Some(
            k.address_spec(desc.family, desc.is_testnet),
        ),
        keyring is None && wallet is None ==> public_key_spec(keyring, desc, wallet) is None,
        keyring is None ==> (wallet matches Some(w) ==> (w.addresses.address_of(desc.family) matches Some(
            a,
        ) ==> public_key_spec(keyring, desc, wallet) == Some(a))),
        keyring is None ==> (wallet matches Some(w) ==> (w.addresses.address_of(desc.family) is None
            && desc.family == ChainFamily::Solana ==> public_key_spec(keyring, desc, wallet) == Some(
            w.public_key@,
        ))),
        keyring is None ==> (wallet matches Some(w) ==> (w.addresses.address_of(desc.family) is None
            && desc.family != ChainFamily::Solana ==> public_key_spec(keyring, desc, wallet) is None)),
{
}

} // verus!
