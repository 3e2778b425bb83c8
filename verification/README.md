# taurvia_wallet

Verified core of the Taurvia desktop wallet, written in Verus.

- `src/` — the library, every function proved against its contract:
  wallet file model (`wallet`), chain families (`network`), curated EVM
  tokens (`tokens`), raw token amounts (`amounts`), token metadata merging
  (`models`), Solana keypair derivation and secret-key import (`keypair`),
  the session keyring and session state (`keyring`, `session`), RPC settings
  (`rpc_urls`, `settings`) and the service's routing decisions (`service`).
  `text` holds the exact meaning of the std string operations used, and
  `codec` the calls into base64, bs58, hex, serde_json, solana-sdk and alloy
  with what each is trusted to return.
- `tests/` — the unit tests.
- `app/` — unverified glue: serde forms of the types, floating-point display
  amounts and prices, and the bridge to `solana_sdk` keypairs.
