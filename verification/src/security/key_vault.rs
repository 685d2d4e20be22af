//! The data-encryption key vault and value-level AEAD envelopes.
//!
//! A random 32-byte key is generated on first use and only a wrapped form
//! of it is ever persisted. `seal` / `open` produce and read versioned
//! ChaCha20-Poly1305 envelopes; the storage format is one version byte, the
//! 12-byte nonce, then the ciphertext.
use crate::security::crypto::{
    chacha20poly1305_open, chacha20poly1305_seal, random_bytes, spec_chacha20poly1305_open,
    spec_chacha20poly1305_seal, AEAD_TAG_LENGTH,
};
use crate::text::{decimal, decimal_text, joined};
use vstd::prelude::*;

verus! {

/// Length of the data-encryption key in bytes.
pub const KEY_LENGTH: usize = 32;

/// Length of the nonce stored in every sealed value.
pub const NONCE_LENGTH: usize = 12;

/// Version byte of the sealed-value format.
pub const SEALED_VERSION: u8 = 0x01;

/// Name of the persisted wrapped-key file inside the data directory.
pub const WRAPPED_KEY_FILE_NAME: &'static str = "aura.keywrap";

/// Errors raised by the key vault.
#[derive(Debug)]
pub enum KeyVaultError {
    /// The entropy source could not produce key material.
    Entropy(String),
    /// The key could not be wrapped or unwrapped.
    Wrapping(String),
    /// The wrapped key could not be read or written.
    Storage(String),
    /// A sealed value could not be produced or opened.
    SealedValue(String),
}

impl KeyVaultError {
    pub open spec fn is_sealed_value_with(self, message: Seq<char>) -> bool {
        self matches KeyVaultError::SealedValue(m) && m@ == message
    }

    pub open spec fn is_wrapping_with(self, message: Seq<char>) -> bool {
        self matches KeyVaultError::Wrapping(m) && m@ == message
    }

    /// The displayed text of the error.
    pub open spec fn spec_message(self) -> Seq<char> {
        match self {
            KeyVaultError::Entropy(m) => "entropy failure: "@ + m@,
            KeyVaultError::Wrapping(m) => "key wrapping failure: "@ + m@,
            KeyVaultError::Storage(m) => "key storage failure: "@ + m@,
            KeyVaultError::SealedValue(m) => "sealed value failure: "@ + m@,
        }
    }

    /// The displayed text of the error.
    pub fn message(&self) -> (r: String)
        ensures
            r@ == self.spec_message(),
    {
        match self {
            KeyVaultError::Entropy(m) => joined("entropy failure: ", m.as_str()),
            KeyVaultError::Wrapping(m) => joined("key wrapping failure: ", m.as_str()),
            KeyVaultError::Storage(m) => joined("key storage failure: ", m.as_str()),
            KeyVaultError::SealedValue(m) => joined("sealed value failure: ", m.as_str()),
        }
    }
}

/// A sealed value: version byte, nonce and authenticated ciphertext.
#[derive(Debug, Clone, PartialEq, Eq)]
pub struct SealedValue {
    pub version: u8,
    pub nonce: Vec<u8>,
    pub ciphertext: Vec<u8>,
}

/// The storage form of a sealed value.
pub open spec fn encoded_sealed(version: u8, nonce: Seq<u8>, ciphertext: Seq<u8>) -> Seq<u8> {
    seq![version] + nonce + ciphertext
}

/// The message a malformed storage form is refused with, or `None` when it
/// is well formed.
pub open spec fn sealed_format_problem(raw: Seq<u8>) -> Option<Seq<char>> {
    if raw.len() == 0 {
        Some("sealed value is empty"@)
    } else if raw[0] != SEALED_VERSION {
        Some("unknown sealed version "@ + decimal_text(raw[0] as nat))
    } else if raw.len() < 1 + NONCE_LENGTH {
        Some("sealed value is too short to hold a nonce"@)
    } else if raw.len() == 1 + NONCE_LENGTH {
        Some("sealed value has no ciphertext"@)
    } else {
        None
    }
}

/// The key the development wrapper stores: the version byte, then the key.
pub open spec fn dev_wrapped(key: Seq<u8>) -> Seq<u8> {
    seq![SEALED_VERSION] + key
}

/// The key the development wrapper reads back from a blob, if the blob is
/// one it wrote.
pub open spec fn dev_unwrapped(blob: Seq<u8>) -> Option<Seq<u8>> {
    if blob.len() == 1 + KEY_LENGTH && blob[0] == SEALED_VERSION {
        Some(blob.subrange(1, blob.len() as int))
    } else {
        None
    }
}

/// The development wrapper reads back every key it wrapped.
pub proof fn lemma_dev_wrapper_roundtrip(key: Seq<u8>)
    requires
        key.len() == KEY_LENGTH,
    ensures
        dev_unwrapped(dev_wrapped(key)) == Some(key),
{
    assert(dev_wrapped(key).subrange(1, 1 + KEY_LENGTH) =~= key);
}

/// Wraps a key with the portable development wrapper: the version byte
/// followed by the raw key. This is no security boundary; the platform
/// wrapper replaces it where one exists.
pub fn dev_wrap_key(key: &[u8]) -> (blob: Vec<u8>)
    ensures
        blob@ == dev_wrapped(key@),
{
    let mut blob: Vec<u8> = Vec::new();
    blob.push(SEALED_VERSION);
    let mut i: usize = 0;
    while i < key.len()
        invariant
            i <= key@.len(),
            blob@ == seq![SEALED_VERSION] + key@.subrange(0, i as int),
        decreases key.len() - i,
    {
        blob.push(key[i]);
        assert(key@.subrange(0, i + 1) =~= key@.subrange(0, i as int).push(key@[i as int]));
        i = i + 1;
    }
    assert(key@.subrange(0, key@.len() as int) =~= key@);
    blob
}

/// Reads a key back from a development-wrapper blob.
pub fn dev_unwrap_key(blob: &[u8]) -> (r: Result<Vec<u8>, KeyVaultError>)
    ensures
        match dev_unwrapped(blob@) {
            Some(key) => r matches Ok(k) && k@ == key,
            None => r matches Err(e) && e.is_wrapping_with(
                "development wrapper could not read wrapped key"@,
            ),
        },
{
    if blob.len() == 1 + KEY_LENGTH && blob[0] == SEALED_VERSION {
        Ok(crate::bytes::copy_bytes(blob, 1, blob.len()))
    } else {
        Err(
            KeyVaultError::Wrapping(
                String::from_str("development wrapper could not read wrapped key"),
            ),
        )
    }
}

/// The in-memory key vault: it holds the unwrapped data-encryption key for
/// the lifetime of the process.
pub struct KeyVault {
    data_directory: String,
    key: Vec<u8>,
}

impl KeyVault {
    #[verifier::type_invariant]
    closed spec fn key_is_complete(self) -> bool {
        self.key@.len() == KEY_LENGTH
    }

    /// The data-encryption key.
    pub closed spec fn spec_key(self) -> Seq<u8> {
        self.key@
    }

    /// The data directory the wrapped key lives in.
    pub closed spec fn spec_data_directory(self) -> Seq<char> {
        self.data_directory@
    }

    /// `sealed` is an envelope this vault produced for `plaintext`.
    pub open spec fn seals(self, plaintext: Seq<u8>, sealed: SealedValue) -> bool {
        &&& sealed.version == SEALED_VERSION
        &&& sealed.nonce@.len() == NONCE_LENGTH
        &&& spec_chacha20poly1305_seal(self.spec_key(), sealed.nonce@, plaintext) == Some(
            sealed.ciphertext@,
        )
    }

    /// Opens the vault of `data_directory`. With the stored wrapped key it
    /// unwraps that key; without one it generates a fresh key and returns
    /// the wrapped form the caller must persist.
    pub fn new(data_directory: String, stored_blob: Option<Vec<u8>>) -> (r: Result<
        (KeyVault, Option<Vec<u8>>),
        KeyVaultError,
    >)
        ensures
            match stored_blob {
                Some(blob) => match dev_unwrapped(blob@) {
                    Some(key) => r matches Ok((vault, None)) && vault.spec_key() == key
                        && vault.spec_data_directory() == data_directory@,
                    None => r matches Err(e) && e.is_wrapping_with(
                        "development wrapper could not read wrapped key"@,
                    ),
                },
                None => match r {
                    Ok((vault, Some(blob))) => {
                        &&& vault.spec_key().len() == KEY_LENGTH
                        &&& blob@ == dev_wrapped(vault.spec_key())
                        &&& vault.spec_data_directory() == data_directory@
                    },
                    Ok((_, None)) => false,
                    Err(e) => e is Entropy,
                },
            },
    {
        match stored_blob {
            Some(blob) => {
                let key = dev_unwrap_key(blob.as_slice())?;
                Ok((KeyVault { data_directory, key }, None))
            },
            None => {
                let key = match random_bytes(KEY_LENGTH) {
                    Ok(bytes) => bytes,
                    Err(text) => {
                        return Err(KeyVaultError::Entropy(text));
                    },
                };
                let blob = dev_wrap_key(key.as_slice());
                Ok((KeyVault { data_directory, key }, Some(blob)))
            },
        }
    }

    /// Encrypts a plaintext into a versioned envelope with a fresh random
    /// nonce.
    pub fn seal(&self, plaintext: &[u8]) -> (r: Result<SealedValue, KeyVaultError>)
        requires
            plaintext@.len() + AEAD_TAG_LENGTH <= usize::MAX,
        ensures
            match r {
                Ok(sealed) => self.seals(plaintext@, sealed) && sealed.ciphertext@.len()
                    == plaintext@.len() + AEAD_TAG_LENGTH,
                Err(e) => e is Entropy || (e.is_sealed_value_with("aead::Error"@)
                    && plaintext@.len() / 64 >= 0xFFFF_FFFF),
            },
    {
        proof {
            use_type_invariant(self);
        }
        let nonce = match random_bytes(NONCE_LENGTH) {
            Ok(bytes) => bytes,
            Err(text) => {
                return Err(KeyVaultError::Entropy(text));
            },
        };
        match chacha20poly1305_seal(self.key.as_slice(), nonce.as_slice(), plaintext) {
            Some(ciphertext) => Ok(SealedValue { version: SEALED_VERSION, nonce, ciphertext }),
            None => Err(KeyVaultError::SealedValue(String::from_str("aead::Error"))),
        }
    }

    /// Decrypts a versioned envelope. An envelope of another version, with a
    /// nonce of another length, or that fails authentication is refused;
    /// every envelope this vault sealed opens to its plaintext.
    pub fn open(&self, sealed: &SealedValue) -> (r: Result<Vec<u8>, KeyVaultError>)
        ensures
            sealed.version != SEALED_VERSION ==> (r matches Err(e) && e.is_sealed_value_with(
                "unknown sealed version "@ + decimal_text(sealed.version as nat),
            )),
            sealed.version == SEALED_VERSION && sealed.nonce@.len() != NONCE_LENGTH ==> (r matches Err(
                e,
            ) && e.is_sealed_value_with("sealed nonce has invalid length"@)),
            sealed.version == SEALED_VERSION && sealed.nonce@.len() == NONCE_LENGTH ==> match spec_chacha20poly1305_open(
                self.spec_key(),
                sealed.nonce@,
                sealed.ciphertext@,
            ) {
                Some(p) => r matches Ok(v) && v@ == p,
                None => r matches Err(e) && e.is_sealed_value_with(
                    "sealed value failed authentication; the ciphertext may be tampered or bound to a different key"@,
                ),
            },
            forall|p: Seq<u8>| #[trigger] self.seals(p, *sealed) ==> (r matches Ok(v) && v@ == p),
    {
        proof {
            use_type_invariant(self);
        }
        if sealed.version != SEALED_VERSION {
            let message = joined("unknown sealed version ", decimal(sealed.version as u64).as_str());
            return Err(KeyVaultError::SealedValue(message));
        }
        if sealed.nonce.len() != NONCE_LENGTH {
            return Err(
                KeyVaultError::SealedValue(String::from_str("sealed nonce has invalid length")),
            );
        }
        match chacha20poly1305_open(
            self.key.as_slice(),
            sealed.nonce.as_slice(),
            sealed.ciphertext.as_slice(),
        ) {
            Some(plaintext) => Ok(plaintext),
            None => Err(
                KeyVaultError::SealedValue(
                    String::from_str(
                        "sealed value failed authentication; the ciphertext may be tampered or bound to a different key",
                    ),
                ),
            ),
        }
    }

    /// Serializes an envelope to the storage format: the version byte, the
    /// nonce, then the ciphertext.
    pub fn encode_sealed(sealed: &SealedValue) -> (r: Vec<u8>)
        ensures
            r@ == encoded_sealed(sealed.version, sealed.nonce@, sealed.ciphertext@),
    {
        let mut buffer: Vec<u8> = Vec::new();
        buffer.push(sealed.version);
        crate::bytes::append_bytes(&mut buffer, sealed.nonce.as_slice());
        crate::bytes::append_bytes(&mut buffer, sealed.ciphertext.as_slice());
        assert(buffer@ =~= encoded_sealed(sealed.version, sealed.nonce@, sealed.ciphertext@));
        buffer
    }

    /// Parses the storage format. The version byte must be the supported
    /// one, and a nonce and a non-empty ciphertext must follow.
    pub fn decode_sealed(raw: &[u8]) -> (r: Result<SealedValue, KeyVaultError>)
        ensures
            match sealed_format_problem(raw@) {
                Some(message) => r matches Err(e) && e.is_sealed_value_with(message),
                None => r matches Ok(sealed) && sealed.version == raw@[0] && sealed.nonce@
                    == raw@.subrange(1, 1 + NONCE_LENGTH) && sealed.ciphertext@ == raw@.subrange(
                    1 + NONCE_LENGTH,
                    raw@.len() as int,
                ),
            },
    {
        if raw.len() == 0 {
            return Err(KeyVaultError::SealedValue(String::from_str("sealed value is empty")));
        }
        let version = raw[0];
        if version != SEALED_VERSION {
            let message = joined("unknown sealed version ", decimal(version as u64).as_str());
            return Err(KeyVaultError::SealedValue(message));
        }
        if raw.len() < 1 + NONCE_LENGTH {
            return Err(
                KeyVaultError::SealedValue(
                    String::from_str("sealed value is too short to hold a nonce"),
                ),
            );
        }
        let nonce = crate::bytes::copy_bytes(raw, 1, 1 + NONCE_LENGTH);
        let ciphertext = crate::bytes::copy_bytes(raw, 1 + NONCE_LENGTH, raw.len());
        if ciphertext.len() == 0 {
            return Err(
                KeyVaultError::SealedValue(String::from_str("sealed value has no ciphertext")),
            );
        }
        Ok(SealedValue { version, nonce, ciphertext })
    }

    /// The data directory this vault persists its wrapped key in.
    pub fn data_directory(&self) -> (r: &String)
        ensures
            r@ == self.spec_data_directory(),
    {
        &self.data_directory
    }

    /// Diagnostic summary. Whether the wrapped key is on disk is observed by
    /// the caller.
    pub fn status(&self, wrapped_key_persisted: bool) -> (r: KeyVaultStatus)
        ensures
            r.wrapped_key_persisted == wrapped_key_persisted,
            r.key_length == KEY_LENGTH,
            r.sealed_version == SEALED_VERSION,
    {
        KeyVaultStatus { wrapped_key_persisted, key_length: KEY_LENGTH, sealed_version: SEALED_VERSION }
    }
}

impl Clone for KeyVault {
    fn clone(&self) -> (r: KeyVault)
        ensures
            r.spec_key() == self.spec_key(),
            r.spec_data_directory() == self.spec_data_directory(),
    {
        proof {
            use_type_invariant(self);
        }
        KeyVault {
            data_directory: self.data_directory.clone(),
            key: crate::bytes::copy_bytes(self.key.as_slice(), 0, self.key.len()),
        }
    }
}

/// Decoding the storage form of a well-formed envelope gives it back.
pub proof fn lemma_sealed_storage_roundtrip(version: u8, nonce: Seq<u8>, ciphertext: Seq<u8>)
    requires
        version == SEALED_VERSION,
        nonce.len() == NONCE_LENGTH,
        ciphertext.len() > 0,
    ensures
        ({
            let raw = encoded_sealed(version, nonce, ciphertext);
            &&& sealed_format_problem(raw) is None
            &&& raw[0] == version
            &&& raw.subrange(1, 1 + NONCE_LENGTH) == nonce
            &&& raw.subrange(1 + NONCE_LENGTH, raw.len() as int) == ciphertext
        }),
{
    let raw = encoded_sealed(version, nonce, ciphertext);
    assert(raw.subrange(1, 1 + NONCE_LENGTH) =~= nonce);
    assert(raw.subrange(1 + NONCE_LENGTH, raw.len() as int) =~= ciphertext);
}

/// Re-encoding a storage form that decodes gives the same bytes.
pub proof fn lemma_sealed_storage_canonical(raw: Seq<u8>)
    requires
        sealed_format_problem(raw) is None,
    ensures
        encoded_sealed(
            raw[0],
            raw.subrange(1, 1 + NONCE_LENGTH),
            raw.subrange(1 + NONCE_LENGTH, raw.len() as int),
        ) == raw,
{
    assert(encoded_sealed(
        raw[0],
        raw.subrange(1, 1 + NONCE_LENGTH),
        raw.subrange(1 + NONCE_LENGTH, raw.len() as int),
    ) =~= raw);
}

/// Diagnostic summary of the key vault.
#[derive(Debug, Clone, PartialEq, Eq)]
pub struct KeyVaultStatus {
    pub wrapped_key_persisted: bool,
    pub key_length: usize,
    pub sealed_version: u8,
}

} // verus!
