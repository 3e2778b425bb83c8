//! Connectivity settings: which RPC endpoint each chain family talks to, and
//! how a settings change or a network switch affects them.

use vstd::prelude::*;
use vstd::string::*;
use crate::network::{ChainFamily, NetworkDescriptor, NETWORK_SOLANA_MAINNET};
use crate::rpc_urls::RpcUrls;
use crate::text::{is_blank, is_blank_spec};
use crate::wallet::opt_view;

verus! {

/// The connectivity part of the user's settings.
pub struct AppSettings {
    /// Active network id.
    pub network: String,
    /// RPC endpoint the user chose for the active network.
    pub rpc_url: Option<String>,
    /// RPC endpoints the user chose per network id.
    pub rpc_urls: RpcUrls,
    pub jupiter_api_key: Option<String>,
}

/// The connectivity part of the configuration resolved from the settings.
pub struct RuntimeConfig {
    /// RPC endpoint of the active network.
    pub rpc_url: String,
    pub jupiter_api_key: Option<String>,
}

/// Why the wallet refused a request.
#[derive(Clone, Copy, Debug)]
pub enum WalletError {
    /// The network (named here) exists but the wallet cannot switch to it yet.
    NetworkNotEnabled(&'static str),
    /// The chain family has no client yet (Sui).
    FamilyNotEnabled,
    /// The wallet is locked: no session keys.
    Locked,
}

/// `==` on optional strings.
pub fn opt_string_eq(a: &Option<String>, b: &Option<String>) -> (r: bool)
    ensures
        r == (opt_view(*a) == opt_view(*b)),
{
    match (a, b) {
        (Some(x), Some(y)) => *x == *y,
        (None, None) => true,
        _ => false,
    }
}

/// A copy of an optional string.
pub fn clone_opt_string(a: &Option<String>) -> (r: Option<String>)
    ensures
        opt_view(r) == opt_view(*a),
{
    match a {
        Some(x) => Some(x.clone()),
        None => None,
    }
}

/// The Solana endpoint when the active network is not Solana: the user's
/// Solana-mainnet override, else the user's RPC URL, unless that choice is
/// blank; then the managed default.
pub open spec fn solana_fallback_rpc(settings: &AppSettings, managed_default_rpc_url: Seq<char>) -> Seq<char> {
    let choice = if settings.rpc_urls@.contains_key(NETWORK_SOLANA_MAINNET@) {
        Some(settings.rpc_urls@[NETWORK_SOLANA_MAINNET@])
    } else {
        opt_view(settings.rpc_url)
    };
    match choice {
        Some(u) => if is_blank_spec(u) {
            managed_default_rpc_url
        } else {
            u
        },
        None => managed_default_rpc_url,
    }
}

/// `split_runtime`: the (Solana, EVM, Bitcoin) endpoints. The active family
/// uses the resolved runtime URL; every other family keeps its own default.
pub open spec fn split_runtime_spec(
    settings: &AppSettings,
    runtime: &RuntimeConfig,
    active: NetworkDescriptor,
    ethereum_mainnet: NetworkDescriptor,
    bitcoin_mainnet: NetworkDescriptor,
    managed_default_rpc_url: Seq<char>,
) -> (Seq<char>, Seq<char>, Seq<char>) {
    (
        if active.family == ChainFamily::Solana {
            runtime.rpc_url@
        } else {
            solana_fallback_rpc(settings, managed_default_rpc_url)
        },
        if active.family == ChainFamily::Evm {
            runtime.rpc_url@
        } else {
            ethereum_mainnet.default_rpc@
        },
        if active.family == ChainFamily::Bitcoin {
            runtime.rpc_url@
        } else {
            bitcoin_mainnet.default_rpc@
        },
    )
}

/// The RPC endpoints of the Solana, EVM and Bitcoin clients. `active` is the
/// descriptor of `settings.network`; the EVM and Bitcoin clients of other
/// networks use the mainnet descriptors' defaults.
pub fn split_runtime(
    settings: &AppSettings,
    runtime: &RuntimeConfig,
    active: &NetworkDescriptor,
    ethereum_mainnet: &NetworkDescriptor,
    bitcoin_mainnet: &NetworkDescriptor,
    managed_default_rpc_url: &str,
) -> (r: (String, String, String))
    ensures
        (r.0@, r.1@, r.2@) == split_runtime_spec(
            settings,
            runtime,
            *active,
            *ethereum_mainnet,
            *bitcoin_mainnet,
            managed_default_rpc_url@,
        ),
{
    let sol = if active.family == ChainFamily::Solana {
        runtime.rpc_url.clone()
    } else {
        let choice: Option<String> = match settings.rpc_urls.get(NETWORK_SOLANA_MAINNET) {
            Some(u) => Some(u.clone()),
            None => clone_opt_string(&settings.rpc_url),
        };
        match choice {
            Some(u) => {
                if is_blank(u.as_str()) {
                    String::from_str(managed_default_rpc_url)
                } else {
                    u
                }
            },
            None => String::from_str(managed_default_rpc_url),
        }
    };
    let evm = if active.family == ChainFamily::Evm {
        runtime.rpc_url.clone()
    } else {
        String::from_str(ethereum_mainnet.default_rpc)
    };
    let btc = if active.family == ChainFamily::Bitcoin {
        runtime.rpc_url.clone()
    } else {
        String::from_str(bitcoin_mainnet.default_rpc)
    };
    (sol, evm, btc)
}

/// Whether a legacy RPC URL given at start-up replaces the resolved one: it
/// must be non-empty, the user must not have chosen an RPC URL (a blank one
/// counts as none), and no environment override may be set.
pub open spec fn legacy_rpc_applies(
    settings: &AppSettings,
    legacy_rpc_url: Option<Seq<char>>,
    env_override_set: bool,
) -> bool {
    &&& legacy_rpc_url is Some
    &&& legacy_rpc_url->0.len() > 0
    &&& match opt_view(settings.rpc_url) {
        Some(u) => is_blank_spec(u),
        None => true,
    }
    &&& !env_override_set
}

/// Applies a legacy start-up RPC URL to the resolved runtime configuration.
pub fn apply_legacy_rpc_url(
    runtime: &mut RuntimeConfig,
    settings: &AppSettings,
    legacy_rpc_url: Option<&str>,
    env_override_set: bool,
)
    ensures
        final(runtime).rpc_url@ == if legacy_rpc_applies(
            settings,
            match legacy_rpc_url {
                Some(u) => Some(u@),
                None => None,
            },
            env_override_set,
        ) {
            legacy_rpc_url->0@
        } else {
            old(runtime).rpc_url@
        },
        final(runtime).jupiter_api_key == old(runtime).jupiter_api_key,
{
    if let Some(url) = legacy_rpc_url {
        if url.unicode_len() > 0 {
            let unset = match &settings.rpc_url {
                Some(u) => is_blank(u.as_str()),
                None => true,
            };
            if unset && !env_override_set {
                runtime.rpc_url = String::from_str(url);
            }
        }
    }
}

/// Whether a settings change touches what the RPC clients were built from.
pub open spec fn connectivity_changed_spec(prev: &AppSettings, next: &AppSettings) -> bool {
    ||| opt_view(prev.rpc_url) != opt_view(next.rpc_url)
    ||| prev.rpc_urls@ != next.rpc_urls@
    ||| opt_view(prev.jupiter_api_key) != opt_view(next.jupiter_api_key)
    ||| prev.network@ != next.network@
}

/// Whether the RPC clients must be rebuilt after `prev` was replaced by `next`.
pub fn connectivity_changed(prev: &AppSettings, next: &AppSettings) -> (r: bool)
    ensures
        r == connectivity_changed_spec(prev, next),
{
    !opt_string_eq(&prev.rpc_url, &next.rpc_url) || !prev.rpc_urls.same_as(&next.rpc_urls)
        || !opt_string_eq(&prev.jupiter_api_key, &next.jupiter_api_key) || prev.network
        != next.network
}

/// The settings after switching to network `id`: the network is `id`, the
/// user's RPC URL is dropped, and so is the override recorded for `id`.
/// Refused for a network that is not enabled.
pub fn settings_for_network(settings: AppSettings, id: &str, desc: &NetworkDescriptor) -> (r: Result<
    AppSettings,
    WalletError,
>)
    ensures
        !desc.enabled ==> r == Err::<AppSettings, WalletError>(
            WalletError::NetworkNotEnabled(desc.name),
        ),
        desc.enabled ==> r is Ok,
        r matches Ok(s) ==> {
            &&& s.network@ == id@
            &&& s.rpc_url is None
            &&& s.rpc_urls@ == settings.rpc_urls@.remove(id@)
            &&& s.jupiter_api_key == settings.jupiter_api_key
        },
{
    if !desc.enabled {
        return Err(WalletError::NetworkNotEnabled(desc.name));
    }
    let mut next = settings;
    next.network = String::from_str(id);
    next.rpc_url = None;
    next.rpc_urls.remove(id);
    Ok(next)
}



impl WalletError {
    /// The "... is not enabled yet" text of a refused network or family.
    pub open spec fn not_enabled_message_spec(&self) -> Option<Seq<char>> {
        match self {
            WalletError::NetworkNotEnabled(name) => Some(name@ + " is not enabled yet"@),
            WalletError::FamilyNotEnabled => Some("Sui is not enabled yet"@),
            WalletError::Locked => None,
        }
    }

    /// The "... is not enabled yet" text of a refused network or family.
    pub fn not_enabled_message(&self) -> (r: Option<String>)
        ensures
            opt_view(r) == self.not_enabled_message_spec(),
    {
        match self {
            WalletError::NetworkNotEnabled(name) => Some(String::from_str(name).concat(" is not enabled yet")),
            WalletError::FamilyNotEnabled => Some(String::from_str("Sui is not enabled yet")),
            WalletError::Locked => None,
        }
    }
}

/// `update_settings`: the network saved with the settings. Once a wallet
/// exists, its own network (`wallet_network`) wins over the submitted one;
/// the other settings are saved as submitted.
pub fn pin_wallet_network(settings: &mut AppSettings, wallet_network: Option<&str>)
    ensures
        final(settings).network@ == match wallet_network {
            Some(w) => w@,
            None => old(settings).network@,
        },
        final(settings).rpc_url == old(settings).rpc_url,
        final(settings).rpc_urls == old(settings).rpc_urls,
        final(settings).jupiter_api_key == old(settings).jupiter_api_key,
{
    if let Some(w) = wallet_network {
        settings.network = String::from_str(w);
    }
}

/// Settings saved unchanged never rebuild the RPC clients.
pub proof fn lemma_unchanged_settings_keep_clients(settings: &AppSettings)
    ensures
        !connectivity_changed_spec(settings, settings),
{
}


/// Any difference in the user's RPC URL, the per-network URLs, the Jupiter
/// key or the network is a connectivity change; settings equal in all four
/// are not.
pub proof fn lemma_connectivity_change_detected(prev: &AppSettings, next: &AppSettings)
    ensures
        (prev.rpc_url matches Some(a) && next.rpc_url matches Some(b) && a@ != b@)
            ==> connectivity_changed_spec(prev, next),
        (prev.rpc_url is Some) != (next.rpc_url is Some) ==> connectivity_changed_spec(prev, next),
        prev.rpc_urls@ != next.rpc_urls@ ==> connectivity_changed_spec(prev, next),
        (prev.jupiter_api_key matches Some(a) && next.jupiter_api_key matches Some(b) && a@ != b@)
            ==> connectivity_changed_spec(prev, next),
        (prev.jupiter_api_key is Some) != (next.jupiter_api_key is Some) ==> connectivity_changed_spec(
            prev,
            next,
        ),
        prev.network@ != next.network@ ==> connectivity_changed_spec(prev, next),
        (opt_view(prev.rpc_url) == opt_view(next.rpc_url) && prev.rpc_urls@ == next.rpc_urls@
            && opt_view(prev.jupiter_api_key) == opt_view(next.jupiter_api_key) && prev.network@
            == next.network@) ==> !connectivity_changed_spec(prev, next),
{
}

} // verus!
