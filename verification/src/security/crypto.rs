//! The cryptographic primitives the workspace relies on: ChaCha20-Poly1305
//! sealing, argon2id key derivation, SHA-256, hexadecimal text and the
//! operating system's entropy source.
use chacha20poly1305::aead::{Aead, KeyInit};
use sha2::Digest;
use vstd::prelude::*;

verus! {

/// Length of a ChaCha20-Poly1305 key in bytes.
pub const AEAD_KEY_LENGTH: usize = 32;

/// Length of a ChaCha20-Poly1305 nonce in bytes.
pub const AEAD_NONCE_LENGTH: usize = 12;

/// Length of the Poly1305 authentication tag appended to every ciphertext.
pub const AEAD_TAG_LENGTH: usize = 16;

/// What `ChaCha20Poly1305::new(key).encrypt(nonce, plaintext)` returns: the
/// ciphertext with its tag, or `None` when the cipher refuses the message.
pub uninterp spec fn spec_chacha20poly1305_seal(
    key: Seq<u8>,
    nonce: Seq<u8>,
    plaintext: Seq<u8>,
) -> Option<Seq<u8>>;

/// What `ChaCha20Poly1305::new(key).decrypt(nonce, ciphertext)` returns: the
/// plaintext, or `None` when authentication fails.
pub uninterp spec fn spec_chacha20poly1305_open(
    key: Seq<u8>,
    nonce: Seq<u8>,
    ciphertext: Seq<u8>,
) -> Option<Seq<u8>>;

/// What argon2id (version 0x13) derives from a password and a salt with the
/// given memory cost, time cost, parallelism and output length, through
/// `Params::new` and `Argon2::hash_password_into`, or the text of the error
/// it reports.
pub uninterp spec fn spec_argon2id_derive(
    password: Seq<u8>,
    salt: Seq<u8>,
    m_cost: u32,
    t_cost: u32,
    p_cost: u32,
    key_length: usize,
) -> Result<Seq<u8>, Seq<char>>;

/// What `sha2::Sha256::digest` returns for a message.
pub uninterp spec fn spec_sha256(message: Seq<u8>) -> Seq<u8>;

/// The text `hex::FromHexError` displays when `hex::decode` refuses a text.
pub uninterp spec fn spec_hex_error_text(text: Seq<char>) -> Seq<char>;

/// The byte content of an optional byte vector.
pub open spec fn bytes_view(bytes: Option<Vec<u8>>) -> Option<Seq<u8>> {
    match bytes {
        Some(v) => Some(v@),
        None => None,
    }
}

/// The lower-case hexadecimal digit for a value below 16.
pub open spec fn hex_digit(v: u8) -> char {
    if v < 10 {
        ((48 + v) as u8) as char
    } else {
        ((87 + v) as u8) as char
    }
}

/// The value of a hexadecimal digit of either case.
pub open spec fn hex_value(c: char) -> Option<u8> {
    let v = c as u32;
    if 48 <= v <= 57 {
        Some((v - 48) as u8)
    } else if 97 <= v <= 102 {
        Some((v - 87) as u8)
    } else if 65 <= v <= 70 {
        Some((v - 55) as u8)
    } else {
        None
    }
}

/// Lower-case hexadecimal text of a byte string, two digits per byte, high
/// nibble first (`hex::encode`).
pub open spec fn hex_text(bytes: Seq<u8>) -> Seq<char> {
    Seq::new(
        2 * bytes.len(),
        |i: int|
            if i % 2 == 0 {
                hex_digit(bytes[i / 2] / 16)
            } else {
                hex_digit(bytes[i / 2] % 16)
            },
    )
}

/// The bytes a hexadecimal text denotes, if it is one: an even number of
/// hexadecimal digits of either case (`hex::decode`).
pub open spec fn hex_bytes(text: Seq<char>) -> Option<Seq<u8>> {
    if text.len() % 2 == 0 && forall|i: int| 0 <= i < text.len() ==> #[trigger] hex_value(text[i]) is Some {
        Some(
            Seq::new(
                text.len() / 2,
                |i: int| (hex_value(text[2 * i])->0 * 16 + hex_value(text[2 * i + 1])->0) as u8,
            ),
        )
    } else {
        None
    }
}

/// Decoding the hexadecimal text of bytes gives the bytes back.
pub proof fn lemma_hex_roundtrip(bytes: Seq<u8>)
    ensures
        hex_bytes(hex_text(bytes)) == Some(bytes),
{
    let text = hex_text(bytes);
    assert forall|i: int| 0 <= i < text.len() implies #[trigger] hex_value(text[i]) is Some by {
        let v: u8 = if i % 2 == 0 {
            bytes[i / 2] / 16
        } else {
            bytes[i / 2] % 16
        };
        assert(text[i] == hex_digit(v));
        assert(v < 16);
    }
    let decoded = hex_bytes(text)->0;
    assert forall|i: int| 0 <= i < bytes.len() implies decoded[i] == bytes[i] by {
        let b = bytes[i];
        assert(text[2 * i] == hex_digit(b / 16));
        assert(text[2 * i + 1] == hex_digit(b % 16));
        assert(hex_value(hex_digit(b / 16)) == Some(b / 16));
        assert(hex_value(hex_digit(b % 16)) == Some(b % 16));
    }
    assert(decoded =~= bytes);
}

/// Encrypts with ChaCha20-Poly1305 (`Aead::encrypt`, no associated data).
/// The ciphertext is named by `spec_chacha20poly1305_seal`; the source
/// shows it is the plaintext's length plus the 16-byte tag, and that the
/// cipher refuses only messages of 2^32 - 1 blocks of 64 bytes or more.
#[verifier::external_body]
pub(crate) fn chacha20poly1305_seal(key: &[u8], nonce: &[u8], plaintext: &[u8]) -> (r: Option<
    Vec<u8>,
>)
    requires
        key@.len() == AEAD_KEY_LENGTH,
        nonce@.len() == AEAD_NONCE_LENGTH,
        plaintext@.len() + AEAD_TAG_LENGTH <= usize::MAX,
    ensures
        match spec_chacha20poly1305_seal(key@, nonce@, plaintext@) {
            Some(c) => r matches Some(v) && v@ == c,
            None => r is None,
        },
        r matches Some(v) ==> v@.len() == plaintext@.len() + AEAD_TAG_LENGTH,
        plaintext@.len() / 64 < 0xFFFF_FFFF ==> r is Some,
{
    let cipher = chacha20poly1305::ChaCha20Poly1305::new(chacha20poly1305::Key::from_slice(key));
    cipher.encrypt(chacha20poly1305::Nonce::from_slice(nonce), plaintext).ok()
}

/// Decrypts with ChaCha20-Poly1305 (`Aead::decrypt`, no associated data).
/// The plaintext is named by `spec_chacha20poly1305_open`; the contract
/// also states that decryption undoes encryption under the same key and
/// nonce.
#[verifier::external_body]
pub(crate) fn chacha20poly1305_open(key: &[u8], nonce: &[u8], ciphertext: &[u8]) -> (r: Option<
    Vec<u8>,
>)
    requires
        key@.len() == AEAD_KEY_LENGTH,
        nonce@.len() == AEAD_NONCE_LENGTH,
    ensures
        match spec_chacha20poly1305_open(key@, nonce@, ciphertext@) {
            Some(p) => r matches Some(v) && v@ == p,
            None => r is None,
        },
        forall|p: Seq<u8>| #[trigger] spec_chacha20poly1305_seal(key@, nonce@, p) == Some(ciphertext@) ==> bytes_view(r) == Some(p),
{
    let cipher = chacha20poly1305::ChaCha20Poly1305::new(chacha20poly1305::Key::from_slice(key));
    cipher.decrypt(chacha20poly1305::Nonce::from_slice(nonce), ciphertext).ok()
}

/// Derives a key with argon2id (version 0x13) through `Params::new` and
/// `Argon2::hash_password_into`. The outcome, key or error text, is named
/// by `spec_argon2id_derive`; the source shows that a key has the requested
/// length, and that with the parameters this workspace uses (19456 KiB, 2
/// passes, 1 lane, 32 bytes) a salt of 8 to 2^32 - 1 bytes and a password
/// of at most 2^32 - 1 bytes are always accepted. `Params::new` multiplies
/// the lane count by 8 before it checks its maximum of 2^24 - 1 lanes, so
/// the lane count is kept within that maximum.
#[verifier::external_body]
pub(crate) fn argon2id_derive(
    password: &[u8],
    salt: &[u8],
    m_cost: u32,
    t_cost: u32,
    p_cost: u32,
    key_length: usize,
) -> (r: Result<Vec<u8>, String>)
    requires
        p_cost <= 0x00FF_FFFF,
    ensures
        match spec_argon2id_derive(password@, salt@, m_cost, t_cost, p_cost, key_length) {
            Ok(k) => r matches Ok(v) && v@ == k,
            Err(t) => r matches Err(e) && e@ == t,
        },
        r matches Ok(v) ==> v@.len() == key_length,
        m_cost == 19456 && t_cost == 2 && p_cost == 1 && key_length == 32 && 8 <= salt@.len()
            <= 0xFFFF_FFFF && password@.len() <= 0xFFFF_FFFF ==> r is Ok,
{
    let params = argon2::Params::new(m_cost, t_cost, p_cost, None).map_err(|e| e.to_string())?;
    let hasher = argon2::Argon2::new(argon2::Algorithm::Argon2id, argon2::Version::V0x13, params);
    let mut key = vec![0u8; key_length];
    hasher.hash_password_into(password, salt, &mut key).map_err(|e| e.to_string())?;
    Ok(key)
}

/// SHA-256 digest through `sha2::Sha256::digest`, named by `spec_sha256`;
/// the digest has 32 bytes.
#[verifier::external_body]
pub(crate) fn sha256(message: &[u8]) -> (r: Vec<u8>)
    ensures
        r@ == spec_sha256(message@),
        r@.len() == 32,
{
    sha2::Sha256::digest(message).to_vec()
}

/// Lower-case hexadecimal text through `hex::encode`.
#[verifier::external_body]
pub(crate) fn hex_encode(bytes: &[u8]) -> (r: String)
    ensures
        r@ == hex_text(bytes@),
{
    hex::encode(bytes)
}

/// Hexadecimal decoding through `hex::decode` of the text's bytes. Both
/// letter cases are accepted; a text with any other character, or an odd
/// number of characters, is refused with the error's display text, which
/// is named by `spec_hex_error_text`.
#[verifier::external_body]
pub(crate) fn hex_decode(text: &str) -> (r: Result<Vec<u8>, String>)
    ensures
        match hex_bytes(text@) {
            Some(b) => r matches Ok(v) && v@ == b,
            None => r matches Err(e) && e@ == spec_hex_error_text(text@),
        },
{
    hex::decode(text).map_err(|error| error.to_string())
}

/// `length` bytes from the operating system's entropy source through
/// `getrandom::fill`. The bytes depend on chance: only their number is
/// stated. A failure carries the entropy source's error text.
#[verifier::external_body]
pub(crate) fn random_bytes(length: usize) -> (r: Result<Vec<u8>, String>)
    ensures
        r matches Ok(v) ==> v@.len() == length,
{
    let mut bytes = vec![0u8; length];
    getrandom::fill(&mut bytes).map_err(|error| error.to_string())?;
    Ok(bytes)
}

} // verus!
