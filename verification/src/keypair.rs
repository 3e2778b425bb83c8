//! Solana keypairs: derivation from a seed, base64 transport, and import of a
//! secret key typed or pasted in any of the formats other wallets export.

use vstd::prelude::*;
use vstd::string::*;
use crate::codec::{
    base58_decode, base58_decoded, base64_decode, base64_decode_spec, base64_encode,
    base64_lengths_fit, base64_standard_encoded, derivation_path_from_absolute,
    derivation_path_indexes, ed25519_public_key, hardened_path, hex_decode, hex_decode_spec,
    hex_value, is_base64_char, json_bytes_of, json_to_bytes, keypair_from_seed,
    keypair_from_seed_and_path, keypair_of_secret, keypair_try_from_bytes, pubkey_text,
    pubkey_to_string, slip10_ed25519_secret, valid_keypair_bytes,
};
use crate::text::{
    all_hex_digits, is_all_hex, is_blank_spec, is_hex_digit, is_unicode_whitespace,
    lemma_trim_ignores_surrounding_blank, lemma_trim_keeps_unpadded, strip_prefix_or_self,
    strip_prefix_or_self_exec, trim, trim_spec,
};
use crate::wallet::DEFAULT_DERIVATION_PATH;

verus! {

/// An Ed25519 keypair as Solana stores it: the 32-byte secret key followed by
/// the 32-byte public key derived from it.
pub struct Keypair {
    bytes: Vec<u8>,
}

impl View for Keypair {
    type V = Seq<u8>;

    closed spec fn view(&self) -> Seq<u8> {
        self.bytes@
    }
}

/// Why a keypair could not be had.
#[derive(Clone, Copy, Debug, PartialEq, Eq, Structural)]
pub enum KeypairError {
    /// The secret input is empty or white space only.
    Required,
    /// The text is not standard base64.
    InvalidEncoding,
    /// The bytes are not a Solana keypair (64 bytes, public half derived from secret half).
    InvalidKeypair,
    /// The secret input matches none of the accepted formats.
    Unrecognized,
    /// The derivation path does not parse.
    InvalidDerivationPath,
    /// SLIP-0010 derivation failed.
    DerivationFailed,
}

/// The keypair bytes a result carries.
pub open spec fn keypair_result_view(r: Result<Keypair, KeypairError>) -> Result<Seq<u8>, KeypairError> {
    match r {
        Ok(kp) => Ok(kp@),
        Err(e) => Err(e),
    }
}

/// `keypair_from_bytes`: 32 bytes are a seed (secret key); anything else must
/// already be keypair bytes.
pub open spec fn keypair_from_bytes_spec(b: Seq<u8>) -> Result<Seq<u8>, KeypairError> {
    if b.len() == 32 {
        Ok(keypair_of_secret(b))
    } else if valid_keypair_bytes(b) {
        Ok(b)
    } else {
        Err(KeypairError::InvalidKeypair)
    }
}

/// `keypair_from_base64`: standard base64 of keypair bytes.
pub open spec fn keypair_from_base64_spec(text: Seq<char>) -> Result<Seq<u8>, KeypairError> {
    match base64_decode_spec(text) {
        None => Err(KeypairError::InvalidEncoding),
        Some(b) => if valid_keypair_bytes(b) {
            Ok(b)
        } else {
            Err(KeypairError::InvalidKeypair)
        },
    }
}

/// The text a `0x` prefix is stripped from.
pub open spec fn hex_prefix() -> Seq<char> {
    seq!['0', 'x']
}

/// The hex branch of the secret import applies: 64 or 128 hex digits, with an
/// optional `0x` prefix.
pub open spec fn is_hex_secret(t: Seq<char>) -> bool {
    let h = strip_prefix_or_self(t, hex_prefix());
    (h.len() == 64 || h.len() == 128) && all_hex_digits(h)
}

/// `keypair_from_secret_input`, on the trimmed input: the first format that
/// applies decides, in this order: a JSON byte array, base64 of keypair bytes,
/// 64 or 128 hex digits, base58 of 32 or 64 bytes.
pub open spec fn secret_input_spec(input: Seq<char>) -> Result<Seq<u8>, KeypairError> {
    let t = trim_spec(input);
    if t.len() == 0 {
        Err(KeypairError::Required)
    } else if json_bytes_of(t) is Some {
        keypair_from_bytes_spec(json_bytes_of(t)->0)
    } else if keypair_from_base64_spec(t) is Ok {
        keypair_from_base64_spec(t)
    } else if is_hex_secret(t) {
        keypair_from_bytes_spec(hex_decode_spec(strip_prefix_or_self(t, hex_prefix())))
    } else if base58_decoded(t) is Some && (base58_decoded(t)->0.len() == 32
        || base58_decoded(t)->0.len() == 64) {
        keypair_from_bytes_spec(base58_decoded(t)->0)
    } else {
        Err(KeypairError::Unrecognized)
    }
}

/// The indexes of the Solana account path `m/44'/501'/0'/0'`, all hardened.
pub open spec fn solana_account_path() -> Seq<(bool, u32)> {
    hardened_path(seq![44u32, 501u32, 0u32, 0u32])
}

/// `derive_keypair_from_seed`: SLIP-0010 along the default Solana account path.
pub open spec fn derive_from_seed_spec(seed: Seq<u8>) -> Seq<u8> {
    keypair_of_secret(slip10_ed25519_secret(seed, solana_account_path()))
}

impl Keypair {
    #[verifier::type_invariant]
    spec fn inv(&self) -> bool {
        valid_keypair_bytes(self.bytes@)
    }

    /// Every keypair is valid: its bytes are valid keypair bytes.
    pub open spec fn wf(&self) -> bool {
        valid_keypair_bytes(self@)
    }

    /// The 32-byte public key.
    pub open spec fn public_spec(&self) -> Seq<u8> {
        self@.subrange(32, 64)
    }

    /// The 64 keypair bytes.
    pub fn to_bytes(&self) -> (r: Vec<u8>)
        ensures
            r@ == self@,
            valid_keypair_bytes(r@),
    {
        proof {
            use_type_invariant(self);
        }
        self.bytes.clone()
    }

    /// The 32 public-key bytes.
    pub fn pubkey_bytes(&self) -> (r: Vec<u8>)
        ensures
            r@ == self.public_spec(),
    {
        proof {
            use_type_invariant(self);
        }
        let mut out: Vec<u8> = Vec::new();
        let mut i: usize = 32;
        while i < 64
            invariant
                self@.len() == 64,
                32 <= i <= 64,
                out@ == self@.subrange(32, i as int),
            decreases 64 - i,
        {
            out.push(self.bytes[i]);
            proof {
                assert(out@ =~= self@.subrange(32, i + 1));
            }
            i = i + 1;
        }
        out
    }

    /// The public key as Solana prints it (base58).
    pub fn pubkey_string(&self) -> (r: String)
        ensures
            r@ == pubkey_text(self.public_spec()),
    {
        proof {
            use_type_invariant(self);
        }
        let public = self.pubkey_bytes();
        pubkey_to_string(public.as_slice())
    }
}

fn keypair_from_parts(bytes: Vec<u8>) -> (r: Keypair)
    requires
        valid_keypair_bytes(bytes@),
    ensures
        r@ == bytes@,
{
    Keypair { bytes }
}

impl Keypair {
    /// Wraps bytes already checked to be keypair bytes.
    pub(crate) fn from_valid_bytes(bytes: Vec<u8>) -> (r: Keypair)
        requires
            valid_keypair_bytes(bytes@),
        ensures
            r@ == bytes@,
            r.wf(),
    {
        Keypair { bytes }
    }
}

/// Derives the wallet's Solana keypair from a BIP-39 seed along
/// `m/44'/501'/0'/0'` (the Phantom / Solflare account).
pub fn derive_keypair_from_seed(seed: &[u8]) -> (r: Result<Keypair, KeypairError>)
    ensures
        r matches Ok(kp) && kp@ == derive_from_seed_spec(seed@),
        r matches Ok(kp) ==> kp.wf(),
{
    let path = match derivation_path_from_absolute(DEFAULT_DERIVATION_PATH) {
        Some(p) => p,
        None => return Err(KeypairError::InvalidDerivationPath),
    };
    let ghost ix = seq![44u32, 501u32, 0u32, 0u32];
    proof {
        assert(derivation_path_indexes(path) == solana_account_path());
        assert forall|i: int| 0 <= i < derivation_path_indexes(path).len() implies (
        #[trigger] derivation_path_indexes(path)[i]).0 by {
            assert(derivation_path_indexes(path)[i] == (true, ix[i]));
        }
    }
    match keypair_from_seed_and_path(seed, path) {
        Some(b) => Ok(keypair_from_parts(b)),
        None => Err(KeypairError::DerivationFailed),
    }
}

/// The keypair in standard base64 (the format the wallet file keeps it in).
pub fn keypair_to_base64(keypair: &Keypair) -> (r: String)
    ensures
        r@ == base64_standard_encoded(keypair@),
        keypair_from_base64_spec(r@) == Ok::<Seq<u8>, KeypairError>(keypair@),
        secret_input_spec(r@) == Ok::<Seq<u8>, KeypairError>(keypair@),
{
    proof {
        use_type_invariant(keypair);
    }
    let r = base64_encode(keypair.bytes.as_slice());
    proof {
        let t = r@;
        assert(t.len() == 88);
        assert(is_base64_char(t[0]));
        assert(is_base64_char(t[t.len() - 1]));
        lemma_trim_keeps_unpadded(t);
        assert(!t.contains('[')) by {
            if t.contains('[') {
                let i = choose|i: int| 0 <= i < t.len() && t[i] == '[';
                assert(is_base64_char(t[i]));
            }
        }
    }
    r
}

/// Reads keypair bytes written in standard base64.
pub fn keypair_from_base64(encoded: &str) -> (r: Result<Keypair, KeypairError>)
    ensures
        keypair_result_view(r) == keypair_from_base64_spec(encoded@),
        r matches Ok(kp) ==> kp.wf(),
{
    let bytes = match base64_decode(encoded) {
        Some(b) => b,
        None => return Err(KeypairError::InvalidEncoding),
    };
    match keypair_try_from_bytes(bytes.as_slice()) {
        Some(b) => Ok(keypair_from_parts(b)),
        None => Err(KeypairError::InvalidKeypair),
    }
}

/// A 32-byte input is a seed; any other input must be keypair bytes.
pub fn keypair_from_bytes(bytes: &[u8]) -> (r: Result<Keypair, KeypairError>)
    ensures
        keypair_result_view(r) == keypair_from_bytes_spec(bytes@),
        r matches Ok(kp) ==> kp.wf(),
{
    if bytes.len() == 32 {
        match keypair_from_seed(bytes) {
            Some(b) => {
                proof {
                    assert(bytes@.subrange(0, 32) =~= bytes@);
                    assert(b@.subrange(0, 32) =~= bytes@);
                    assert(b@.subrange(32, 64) =~= ed25519_public_key(bytes@));
                }
                Ok(keypair_from_parts(b))
            },
            None => Err(KeypairError::InvalidKeypair),
        }
    } else {
        match keypair_try_from_bytes(bytes) {
            Some(b) => Ok(keypair_from_parts(b)),
            None => Err(KeypairError::InvalidKeypair),
        }
    }
}

/// Imports a Solana secret key from what a user pastes: a JSON byte array
/// (Solana CLI), base64 keypair bytes, hex (optionally `0x`-prefixed) of a
/// 32-byte seed or 64 keypair bytes, or base58 (Phantom) of either.
/// Surrounding white space is ignored.
pub fn keypair_from_secret_input(input: &str) -> (r: Result<Keypair, KeypairError>)
    ensures
        keypair_result_view(r) == secret_input_spec(input@),
        r matches Ok(kp) ==> kp.wf(),
{
    let trimmed = trim(input);
    if trimmed.unicode_len() == 0 {
        return Err(KeypairError::Required);
    }
    if let Some(bytes) = json_to_bytes(trimmed) {
        return keypair_from_bytes(bytes.as_slice());
    }
    let from_b64 = keypair_from_base64(trimmed);
    if from_b64.is_ok() {
        return from_b64;
    }
    let hex = strip_prefix_or_self_exec(trimmed, "0x");
    proof {
        reveal_strlit("0x");
        assert("0x"@ =~= hex_prefix());
    }
    let hex_len = hex.unicode_len();
    if (hex_len == 64 || hex_len == 128) && is_all_hex(hex) {
        match hex_decode(hex) {
            Some(bytes) => return keypair_from_bytes(bytes.as_slice()),
            None => return Err(KeypairError::Unrecognized),
        }
    }
    if let Some(bytes) = base58_decode(trimmed) {
        if bytes.len() == 32 || bytes.len() == 64 {
            return keypair_from_bytes(bytes.as_slice());
        }
    }
    Err(KeypairError::Unrecognized)
}



/// The lower-case hex digit of a value below 16.
pub open spec fn hex_digit_char(d: int) -> char {
    if d == 0 { '0' }
    else if d == 1 { '1' }
    else if d == 2 { '2' }
    else if d == 3 { '3' }
    else if d == 4 { '4' }
    else if d == 5 { '5' }
    else if d == 6 { '6' }
    else if d == 7 { '7' }
    else if d == 8 { '8' }
    else if d == 9 { '9' }
    else if d == 10 { 'a' }
    else if d == 11 { 'b' }
    else if d == 12 { 'c' }
    else if d == 13 { 'd' }
    else if d == 14 { 'e' }
    else { 'f' }
}

/// Lower-case hex of bytes: two digits a byte, high nibble first.
pub open spec fn hex_encode_spec(b: Seq<u8>) -> Seq<char> {
    Seq::new(
        2 * b.len(),
        |i: int|
            if i % 2 == 0 {
                hex_digit_char((b[i / 2] / 16) as int)
            } else {
                hex_digit_char((b[i / 2] % 16) as int)
            },
    )
}

proof fn lemma_hex_digit_char(d: int)
    requires
        0 <= d < 16,
    ensures
        is_hex_digit(hex_digit_char(d)),
        hex_value(hex_digit_char(d)) == d,
        hex_digit_char(d) != 'x',
        !is_unicode_whitespace(hex_digit_char(d)),
        hex_digit_char(d) != '[',
{
}

proof fn lemma_hex_encode(b: Seq<u8>)
    ensures
        all_hex_digits(hex_encode_spec(b)),
        hex_decode_spec(hex_encode_spec(b)) == b,
        forall|i: int| 0 <= i < hex_encode_spec(b).len() ==> hex_encode_spec(b)[i] != 'x'
            && hex_encode_spec(b)[i] != '[' && !is_unicode_whitespace(#[trigger] hex_encode_spec(b)[i]),
{
    let h = hex_encode_spec(b);
    assert forall|i: int| 0 <= i < h.len() implies is_hex_digit(#[trigger] h[i]) && h[i] != 'x'
        && h[i] != '[' && !is_unicode_whitespace(h[i]) by {
        lemma_hex_digit_char((b[i / 2] / 16) as int);
        lemma_hex_digit_char((b[i / 2] % 16) as int);
    }
    let d = hex_decode_spec(h);
    assert forall|i: int| 0 <= i < b.len() implies #[trigger] d[i] == b[i] by {
        assert((2 * i) % 2 == 0 && (2 * i) / 2 == i);
        assert((2 * i + 1) % 2 == 1 && (2 * i + 1) / 2 == i);
        lemma_hex_digit_char((b[i] / 16) as int);
        lemma_hex_digit_char((b[i] % 16) as int);
        assert(h[2 * i] == hex_digit_char((b[i] / 16) as int));
        assert(h[2 * i + 1] == hex_digit_char((b[i] % 16) as int));
        assert((b[i] / 16) * 16 + b[i] % 16 == b[i]);
    }
    assert(d =~= b);
}

/// A 32-byte seed or 64 keypair bytes, pasted as lower-case hex with or
/// without a `0x` prefix, import as those bytes would (a seed gives its
/// keypair; keypair bytes are taken as they are when valid).
pub proof fn lemma_hex_secret_imports(b: Seq<u8>, prefixed: bool)
    requires
        b.len() == 32 || b.len() == 64,
    ensures
        secret_input_spec(
            (if prefixed {
                hex_prefix()
            } else {
                Seq::<char>::empty()
            }) + hex_encode_spec(b),
        ) == keypair_from_bytes_spec(b),
{
    let h = hex_encode_spec(b);
    let p = if prefixed {
        hex_prefix()
    } else {
        Seq::<char>::empty()
    };
    let t = p + h;
    lemma_hex_encode(b);
    assert(h.len() == 64 || h.len() == 128);
    assert forall|i: int| 0 <= i < t.len() implies t[i] != '[' && !is_unicode_whitespace(#[trigger] t[i]) by {
        if i >= p.len() {
            assert(t[i] == h[i - p.len()]);
        }
    }
    assert(t[0] == t[0]);
    assert(t.last() == t[t.len() - 1]);
    lemma_trim_keeps_unpadded(t);
    assert(!t.contains('[')) by {
        if t.contains('[') {
            let i = choose|i: int| 0 <= i < t.len() && t[i] == '[';
            assert(t[i] != '[');
        }
    }
    assert(json_bytes_of(t) is None);
    assert(keypair_from_base64_spec(t) is Err) by {
        if base64_decode_spec(t) is Some {
            let d = base64_decode_spec(t)->0;
            assert(base64_lengths_fit(t.len(), d.len()));
            assert(d.len() != 64);
        }
    }
    if prefixed {
        assert(t.subrange(0, 2) =~= hex_prefix());
        assert(t.subrange(2, t.len() as int) =~= h);
    } else {
        assert(t =~= h);
        assert(h[1] != 'x');
        assert(t.subrange(0, 2) != hex_prefix()) by {
            assert(t.subrange(0, 2)[1] == h[1]);
        }
    }
    assert(strip_prefix_or_self(t, hex_prefix()) == h);
    assert(is_hex_secret(t));
}

/// Surrounding white space never changes what a secret input imports.
pub proof fn lemma_secret_input_ignores_surrounding_blank(pre: Seq<char>, input: Seq<char>, post: Seq<char>)
    requires
        is_blank_spec(pre),
        is_blank_spec(post),
    ensures
        secret_input_spec(pre + input + post) == secret_input_spec(input),
{
    lemma_trim_ignores_surrounding_blank(pre, input, post);
}

} // verus!
