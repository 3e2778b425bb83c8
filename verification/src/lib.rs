//! Wallet core of the Taurvia desktop wallet: the wallet file model, curated
//! token tables, Solana secret-key import, runtime RPC selection and the
//! decisions the wallet service takes before it talks to a chain.

pub mod text;
pub mod network;
pub mod wallet;
pub mod codec;
pub mod keypair;
pub mod tokens;
pub mod keyring;
pub mod rpc_urls;
pub mod settings;
pub mod models;
pub mod service;
pub mod amounts;
pub mod session;
