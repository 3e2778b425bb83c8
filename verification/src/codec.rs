//! Calls into the encoding and key-derivation crates, with what each call is
//! trusted to return. Results that take pages to specify are given names;
//! the hex decoder and the keypair checks are stated in full.

use vstd::prelude::*;
use crate::amounts::{decimal_text, limbs_value};
use crate::wallet::DEFAULT_DERIVATION_PATH;
use crate::text::all_hex_digits;
use base64::Engine;

verus! {

/// The bytes of an optional byte vector.
pub open spec fn opt_bytes(v: Option<Vec<u8>>) -> Option<Seq<u8>> {
    match v {
        Some(b) => Some(b@),
        None => None,
    }
}

/// What `serde_json::from_str::<Vec<u8>>` makes of a text: `None` where it fails.
pub uninterp spec fn json_byte_array(text: Seq<char>) -> Option<Seq<u8>>;

/// What the standard base64 engine (RFC 4648 alphabet, padded, canonical)
/// decodes a text to: `None` where it rejects the text.
pub uninterp spec fn base64_standard_decoded(text: Seq<char>) -> Option<Seq<u8>>;

/// The text the standard base64 engine encodes bytes to.
pub uninterp spec fn base64_standard_encoded(bytes: Seq<u8>) -> Seq<char>;

/// What `bs58::decode` (Bitcoin alphabet) decodes a text to: `None` where it fails.
pub uninterp spec fn base58_decoded(text: Seq<char>) -> Option<Seq<u8>>;

/// The base58 text of a Solana public key (`Pubkey`'s `Display`).
pub uninterp spec fn pubkey_text(public: Seq<u8>) -> Seq<char>;

/// The Ed25519 public key derived from a 32-byte secret key
/// (`ed25519_dalek::PublicKey::from(&SecretKey)`), compressed to 32 bytes.
pub uninterp spec fn ed25519_public_key(secret: Seq<u8>) -> Seq<u8>;

/// The indexes of the path that `DerivationPath::from_absolute_path_str`
/// parses a text to: `None` where the text is not a path.
pub uninterp spec fn absolute_derivation_path(text: Seq<char>) -> Option<Seq<u32>>;

/// The child indexes a derivation path holds, each as (hardened, index).
pub uninterp spec fn derivation_path_indexes(path: solana_derivation_path::DerivationPath) -> Seq<(bool, u32)>;

/// The secret key that SLIP-0010 Ed25519 derivation reaches from a seed
/// along a path of (hardened, index) steps.
pub uninterp spec fn slip10_ed25519_secret(seed: Seq<u8>, path: Seq<(bool, u32)>) -> Seq<u8>;

/// Each index of a path, hardened.
pub open spec fn hardened_path(indexes: Seq<u32>) -> Seq<(bool, u32)> {
    indexes.map_values(|i: u32| (true, i))
}

/// 64 keypair bytes: a 32-byte secret key followed by the public key derived from it.
pub open spec fn valid_keypair_bytes(b: Seq<u8>) -> bool {
    &&& b.len() == 64
    &&& b.subrange(32, 64) == ed25519_public_key(b.subrange(0, 32))
}

/// The keypair bytes of a 32-byte secret key.
pub open spec fn keypair_of_secret(secret: Seq<u8>) -> Seq<u8> {
    secret + ed25519_public_key(secret)
}

/// The value of a hex digit.
pub open spec fn hex_value(c: char) -> int {
    if '0' <= c && c <= '9' {
        (c as int) - ('0' as int)
    } else if 'a' <= c && c <= 'f' {
        (c as int) - ('a' as int) + 10
    } else {
        (c as int) - ('A' as int) + 10
    }
}

/// The bytes an even-length string of hex digits stands for, two digits a byte,
/// high nibble first.
pub open spec fn hex_decode_spec(s: Seq<char>) -> Seq<u8> {
    Seq::new(s.len() / 2, |i: int| (hex_value(s[2 * i]) * 16 + hex_value(s[2 * i + 1])) as u8)
}

#[verifier::external_type_specification]
#[verifier::external_body]
pub struct ExDerivationPath(solana_derivation_path::DerivationPath);

/// `serde_json::from_str::<Vec<u8>>`: a JSON array of byte values.
/// Trusted: the result is the named parse of the text, and, as the source
/// shows (a sequence must open with `[`), there is none without a `[`.
#[verifier::external_body]
pub(crate) fn json_to_bytes(text: &str) -> (r: Option<Vec<u8>>)
    ensures
        opt_bytes(r) == (if text@.contains('[') {
            json_byte_array(text@)
        } else {
            None
        }),
{
    serde_json::from_str::<Vec<u8>>(text).ok()
}

/// What `json_to_bytes` returns: the named parse, and none without a `[`.
pub open spec fn json_bytes_of(text: Seq<char>) -> Option<Seq<u8>> {
    if text.contains('[') {
        json_byte_array(text)
    } else {
        None
    }
}

/// Lengths that standard padded base64 decoding can relate: the text is
/// whole quads, each giving 3 bytes, less at most 2 for padding.
pub open spec fn base64_lengths_fit(text_len: nat, bytes_len: nat) -> bool {
    &&& text_len % 4 == 0
    &&& bytes_len <= 3 * (text_len / 4)
    &&& 3 * (text_len / 4) <= bytes_len + 2
}

/// What `base64_decode` returns: the named decoding, whose lengths fit.
pub open spec fn base64_decode_spec(text: Seq<char>) -> Option<Seq<u8>> {
    if base64_standard_decoded(text) is Some && base64_lengths_fit(
        text.len(),
        base64_standard_decoded(text)->0.len(),
    ) {
        base64_standard_decoded(text)
    } else {
        None
    }
}

/// A character of the standard base64 alphabet, or the `=` pad.
pub open spec fn is_base64_char(c: char) -> bool {
    ('A' <= c && c <= 'Z') || ('a' <= c && c <= 'z') || ('0' <= c && c <= '9') || c == '+' || c
        == '/' || c == '='
}

/// `base64::engine::general_purpose::STANDARD.decode`.
/// Trusted: the result is the named decoding of the text, and, as the source
/// shows (canonical padding required), a decodable text is whole quads of 4
/// characters, each giving 3 bytes less at most 2 for the final padding.
#[verifier::external_body]
pub(crate) fn base64_decode(text: &str) -> (r: Option<Vec<u8>>)
    ensures
        opt_bytes(r) == (if base64_standard_decoded(text@) is Some && base64_lengths_fit(
            text@.len(),
            base64_standard_decoded(text@)->0.len(),
        ) {
            base64_standard_decoded(text@)
        } else {
            None
        }),
{
    base64::engine::general_purpose::STANDARD.decode(text).ok()
}

/// `base64::engine::general_purpose::STANDARD.encode`.
/// Trusted: the result is the named encoding: padded quads of the standard
/// alphabet, 4 characters for every 3 bytes begun, and the same engine
/// decodes it back to the input (the crate's encode/decode round trip).
#[verifier::external_body]
pub(crate) fn base64_encode(bytes: &[u8]) -> (r: String)
    ensures
        r@ == base64_standard_encoded(bytes@),
        base64_decode_spec(r@) == Some(bytes@),
        r@.len() == 4 * ((bytes@.len() + 2) / 3),
        forall|i: int| 0 <= i < r@.len() ==> is_base64_char(#[trigger] r@[i]),
{
    base64::engine::general_purpose::STANDARD.encode(bytes)
}

/// `bs58::decode(text).into_vec()`.
/// Trusted: the result is the named decoding of the text.
#[verifier::external_body]
pub(crate) fn base58_decode(text: &str) -> (r: Option<Vec<u8>>)
    ensures
        opt_bytes(r) == base58_decoded(text@),
{
    bs58::decode(text).into_vec().ok()
}

/// `hex::decode`. Trusted, as its source shows: it succeeds exactly on an
/// even number of hex digits (either case) and turns each pair into one byte.
#[verifier::external_body]
pub(crate) fn hex_decode(text: &str) -> (r: Option<Vec<u8>>)
    ensures
        r is Some <==> (all_hex_digits(text@) && text@.len() % 2 == 0),
        r matches Some(b) ==> b@ == hex_decode_spec(text@),
{
    hex::decode(text).ok()
}

/// `Pubkey::new_from_array(public).to_string()`.
/// Trusted: the result is the named base58 text of the 32 bytes.
#[verifier::external_body]
pub(crate) fn pubkey_to_string(public: &[u8]) -> (r: String)
    requires
        public@.len() == 32,
    ensures
        r@ == pubkey_text(public@),
{
    let arr: [u8; 32] = <[u8; 32]>::try_from(public).unwrap();
    solana_sdk::pubkey::Pubkey::new_from_array(arr).to_string()
}

/// `solana_keypair::keypair_from_seed`, as its source shows: it fails exactly
/// on seeds shorter than 32 bytes, and otherwise keeps the first 32 bytes as
/// the secret key next to the public key derived from it.
#[verifier::external_body]
#[allow(deprecated)]
pub(crate) fn keypair_from_seed(seed: &[u8]) -> (r: Option<Vec<u8>>)
    ensures
        r is Some <==> seed@.len() >= 32,
        r matches Some(b) ==> b@ == seed@.subrange(0, 32) + ed25519_public_key(seed@.subrange(0, 32)),
        r matches Some(b) ==> ed25519_public_key(seed@.subrange(0, 32)).len() == 32,
{
    match solana_sdk::signature::keypair_from_seed(seed) {
        Ok(kp) => Some(kp.to_bytes().to_vec()),
        Err(_) => None,
    }
}

/// `<Keypair as TryFrom<&[u8]>>::try_from`, as its source shows: it accepts
/// exactly 64 bytes whose second half is the public key derived from the
/// first half, and its bytes are then the input.
#[verifier::external_body]
pub(crate) fn keypair_try_from_bytes(bytes: &[u8]) -> (r: Option<Vec<u8>>)
    ensures
        r is Some <==> valid_keypair_bytes(bytes@),
        r matches Some(b) ==> b@ == bytes@,
{
    match solana_sdk::signature::Keypair::try_from(bytes) {
        Ok(kp) => Some(kp.to_bytes().to_vec()),
        Err(_) => None,
    }
}

/// `DerivationPath::from_absolute_path_str`: the named parse of the text,
/// every index hardened (the function hardens each component). The Solana
/// account path `m/44'/501'/0'/0'` parses to the indexes 44, 501, 0, 0.
#[verifier::external_body]
pub(crate) fn derivation_path_from_absolute(text: &str) -> (r: Option<
    solana_derivation_path::DerivationPath,
>)
    ensures
        r is Some <==> absolute_derivation_path(text@) is Some,
        r matches Some(p) ==> derivation_path_indexes(p) == hardened_path(
            absolute_derivation_path(text@)->0,
        ),
        r is Some || text@ != DEFAULT_DERIVATION_PATH@,
        r matches Some(p) ==> (text@ == DEFAULT_DERIVATION_PATH@ ==> derivation_path_indexes(p)
            == hardened_path(seq![44u32, 501u32, 0u32, 0u32])),
{
    solana_derivation_path::DerivationPath::from_absolute_path_str(text).ok()
}

/// `solana_keypair::keypair_from_seed_and_derivation_path(seed, Some(path))`,
/// as its source shows: SLIP-0010 derivation fails exactly where the path
/// holds a non-hardened index, and the keypair holds the derived secret key
/// and the public key derived from it. Paths of 256 or more steps are left
/// out: the derivation depth is a `u8` and overflows on them.
#[verifier::external_body]
#[allow(deprecated)]
pub(crate) fn keypair_from_seed_and_path(
    seed: &[u8],
    path: solana_derivation_path::DerivationPath,
) -> (r: Option<Vec<u8>>)
    requires
        derivation_path_indexes(path).len() < 256,
    ensures
        r is Some <==> (forall|i: int|
            0 <= i < derivation_path_indexes(path).len() ==> (#[trigger] derivation_path_indexes(
                path,
            )[i]).0),
        r matches Some(b) ==> b@ == keypair_of_secret(
            slip10_ed25519_secret(seed@, derivation_path_indexes(path)),
        ),
        r matches Some(b) ==> b@.subrange(32, 64) == ed25519_public_key(b@.subrange(0, 32)) && b@.len() == 64,
{
    match solana_sdk::signer::keypair::keypair_from_seed_and_derivation_path(seed, Some(path)) {
        Ok(kp) => Some(kp.to_bytes().to_vec()),
        Err(_) => None,
    }
}


/// `U256::from_limbs(limbs).to_string()`: the decimal text of the value
/// (ruint's `Display` in base ten, no leading zeros).
#[verifier::external_body]
pub(crate) fn u256_to_string(limbs: [u64; 4]) -> (r: String)
    ensures
        r@ == decimal_text(limbs_value(limbs)),
{
    alloy::primitives::U256::from_limbs(limbs).to_string()
}

/// `U256::from_limbs(limbs).is_zero()`.
#[verifier::external_body]
pub(crate) fn u256_is_zero(limbs: [u64; 4]) -> (r: bool)
    ensures
        r == (limbs_value(limbs) == 0),
{
    alloy::primitives::U256::from_limbs(limbs).is_zero()
}

} // verus!
