//! Passphrase-derived archive keys.
//!
//! A user may seal an exported archive with a key derived from a passphrase
//! (argon2id, 19 MiB, 2 passes, 1 lane, 256-bit output) so the archive opens
//! on any machine. Only the salt and the public parameters travel with the
//! archive; the passphrase itself never does.
use crate::security::crypto::{
    argon2id_derive, chacha20poly1305_open, chacha20poly1305_seal, random_bytes,
    spec_argon2id_derive, spec_chacha20poly1305_open, spec_chacha20poly1305_seal,
    AEAD_TAG_LENGTH,
};
use crate::security::key_vault::{
    sealed_format_problem, KeyVault, NONCE_LENGTH, SEALED_VERSION,
};
use crate::text::joined;
use vstd::prelude::*;

verus! {

/// Length of the derived passphrase key in bytes.
pub const PASSPHRASE_KEY_LENGTH: usize = 32;

/// Length of the random salt stored next to the sealed payload.
pub const PASSPHRASE_SALT_LENGTH: usize = 16;

/// Argon2id memory cost, in kibibytes (19 MiB).
pub const ARGON2_M_COST: u32 = 19456;

/// Argon2id time cost.
pub const ARGON2_T_COST: u32 = 2;

/// Argon2id parallelism.
pub const ARGON2_P_COST: u32 = 1;

/// Errors raised by passphrase handling.
#[derive(Debug)]
pub enum PassphraseError {
    /// The passphrase does not meet the strength gate.
    TooWeak(String),
    /// The entropy source could not produce salt or nonce bytes.
    Entropy(String),
    /// Derivation failed.
    Derivation(String),
    /// The sealed payload could not be produced or failed authentication.
    SealedValue(String),
}

impl PassphraseError {
    pub open spec fn is_sealed_value_with(self, message: Seq<char>) -> bool {
        self matches PassphraseError::SealedValue(m) && m@ == message
    }

    /// The displayed text of the error.
    pub open spec fn spec_message(self) -> Seq<char> {
        match self {
            PassphraseError::TooWeak(m) => "passphrase is too weak: "@ + m@,
            PassphraseError::Entropy(m) => "entropy failure: "@ + m@,
            PassphraseError::Derivation(m) => "derivation failure: "@ + m@,
            PassphraseError::SealedValue(m) => "sealed value failure: "@ + m@,
        }
    }

    /// The displayed text of the error.
    pub fn message(&self) -> (r: String)
        ensures
            r@ == self.spec_message(),
    {
        match self {
            PassphraseError::TooWeak(m) => joined("passphrase is too weak: ", m.as_str()),
            PassphraseError::Entropy(m) => joined("entropy failure: ", m.as_str()),
            PassphraseError::Derivation(m) => joined("derivation failure: ", m.as_str()),
            PassphraseError::SealedValue(m) => joined("sealed value failure: ", m.as_str()),
        }
    }
}

/// The byte is an ASCII lower-case letter.
pub open spec fn is_ascii_lower(b: u8) -> bool {
    97 <= b <= 122
}

/// The byte is an ASCII upper-case letter.
pub open spec fn is_ascii_upper(b: u8) -> bool {
    65 <= b <= 90
}

/// The byte is an ASCII digit.
pub open spec fn is_ascii_digit(b: u8) -> bool {
    48 <= b <= 57
}

/// The strength gate: twelve bytes in any form, or at least eight bytes
/// mixing lower case, upper case and digits.
pub open spec fn strong_enough(bytes: Seq<u8>) -> bool {
    bytes.len() >= 12 || (bytes.len() >= 8 && (exists|i: int|
        0 <= i < bytes.len() && is_ascii_lower(#[trigger] bytes[i])) && (exists|i: int|
        0 <= i < bytes.len() && is_ascii_upper(#[trigger] bytes[i])) && (exists|i: int|
        0 <= i < bytes.len() && is_ascii_digit(#[trigger] bytes[i])))
}

/// A user passphrase, held as its UTF-8 bytes.
pub struct Passphrase(Vec<u8>);

impl Passphrase {
    /// The passphrase's bytes.
    pub closed spec fn spec_bytes(self) -> Seq<u8> {
        self.0@
    }

    /// Wraps a passphrase, taking its UTF-8 bytes.
    pub fn new(text: String) -> (r: Passphrase)
        ensures
            r.spec_bytes() == vstd::utf8::encode_utf8(text@),
    {
        let bytes = text.as_str().as_bytes();
        Passphrase(crate::bytes::copy_bytes(bytes, 0, bytes.len()))
    }

    /// The strength gate enforced before any archive is sealed with a
    /// passphrase.
    pub fn meets_strength_gate(&self) -> (r: bool)
        ensures
            r == strong_enough(self.spec_bytes()),
    {
        let bytes = &self.0;
        if bytes.len() >= 12 {
            return true;
        }
        if bytes.len() < 8 {
            return false;
        }
        let mut has_lower = false;
        let mut has_upper = false;
        let mut has_digit = false;
        let mut i: usize = 0;
        while i < bytes.len()
            invariant
                i <= bytes@.len(),
                has_lower == exists|k: int| 0 <= k < i && is_ascii_lower(#[trigger] bytes@[k]),
                has_upper == exists|k: int| 0 <= k < i && is_ascii_upper(#[trigger] bytes@[k]),
                has_digit == exists|k: int| 0 <= k < i && is_ascii_digit(#[trigger] bytes@[k]),
            decreases bytes.len() - i,
        {
            let b = bytes[i];
            if 97 <= b && b <= 122 {
                has_lower = true;
            }
            if 65 <= b && b <= 90 {
                has_upper = true;
            }
            if 48 <= b && b <= 57 {
                has_digit = true;
            }
            i = i + 1;
        }
        has_lower && has_upper && has_digit
    }

    /// The passphrase's bytes.
    pub fn as_bytes(&self) -> (r: &[u8])
        ensures
            r@ == self.spec_bytes(),
    {
        self.0.as_slice()
    }
}

/// Two passphrases are equal when their bytes are. The comparison folds
/// the differences of all byte pairs before deciding, so its running time
/// does not reveal where two passphrases of the same length first differ.
impl PartialEq for Passphrase {
    fn eq(&self, other: &Self) -> (r: bool) {
        if self.0.len() != other.0.len() {
            return false;
        }
        let mut difference: u8 = 0;
        let mut i: usize = 0;
        while i < self.0.len()
            invariant
                i <= self.0@.len(),
                self.0@.len() == other.0@.len(),
                difference == 0 <==> forall|j: int| 0 <= j < i ==> self.0@[j] == other.0@[j],
            decreases self.0.len() - i,
        {
            let a = self.0[i];
            let b = other.0[i];
            assert((difference | (a ^ b)) == 0 <==> (difference == 0 && a == b)) by (bit_vector);
            let next = difference | (a ^ b);
            difference = next;
            i = i + 1;
        }
        proof {
            if difference == 0 {
                assert(self.0@ =~= other.0@);
            }
        }
        difference == 0
    }
}

impl Eq for Passphrase {}

impl vstd::std_specs::cmp::PartialEqSpecImpl for Passphrase {
    open spec fn obeys_eq_spec() -> bool {
        true
    }

    open spec fn eq_spec(&self, other: &Self) -> bool {
        self.spec_bytes() == other.spec_bytes()
    }
}

/// `raw` is the storage form of a sealing of `plaintext` under `key`: the
/// version byte, a nonce, then the ciphertext of `plaintext` with that
/// nonce.
pub open spec fn raw_seals(key: Seq<u8>, plaintext: Seq<u8>, raw: Seq<u8>) -> bool {
    &&& raw.len() > 1 + NONCE_LENGTH
    &&& raw[0] == SEALED_VERSION
    &&& spec_chacha20poly1305_seal(key, raw.subrange(1, 1 + NONCE_LENGTH), plaintext) == Some(
        raw.subrange(1 + NONCE_LENGTH, raw.len() as int),
    )
}

/// A key derived from a passphrase and a salt.
pub struct PassphraseKey {
    bytes: Vec<u8>,
}

impl PassphraseKey {
    #[verifier::type_invariant]
    closed spec fn complete(self) -> bool {
        self.bytes@.len() == PASSPHRASE_KEY_LENGTH
    }

    /// The derived key.
    pub closed spec fn spec_key(self) -> Seq<u8> {
        self.bytes@
    }

    /// Derives a 256-bit key from a passphrase and a salt with argon2id. The
    /// key is a function of the passphrase and the salt alone, so the same
    /// pair always derives the same key.
    pub fn derive(passphrase: &Passphrase, salt: &[u8]) -> (r: Result<PassphraseKey, PassphraseError>)
        ensures
            match spec_argon2id_derive(
                passphrase.spec_bytes(),
                salt@,
                ARGON2_M_COST,
                ARGON2_T_COST,
                ARGON2_P_COST,
                PASSPHRASE_KEY_LENGTH,
            ) {
                Ok(k) => r matches Ok(key) && key.spec_key() == k,
                Err(t) => r matches Err(PassphraseError::Derivation(m)) && m@ == t,
            },
            8 <= salt@.len() <= 0xFFFF_FFFF && passphrase.spec_bytes().len() <= 0xFFFF_FFFF
                ==> r is Ok,
    {
        match argon2id_derive(
            passphrase.as_bytes(),
            salt,
            ARGON2_M_COST,
            ARGON2_T_COST,
            ARGON2_P_COST,
            PASSPHRASE_KEY_LENGTH,
        ) {
            Ok(bytes) => Ok(PassphraseKey { bytes }),
            Err(text) => Err(PassphraseError::Derivation(text)),
        }
    }

    /// Seals plaintext with a fresh random nonce, in the storage format: the
    /// version byte, the nonce, then the ciphertext.
    pub fn seal(&self, plaintext: &[u8]) -> (r: Result<Vec<u8>, PassphraseError>)
        requires
            plaintext@.len() + AEAD_TAG_LENGTH <= usize::MAX,
        ensures
            match r {
                Ok(raw) => raw_seals(self.spec_key(), plaintext@, raw@),
                Err(e) => e is Entropy || (e.is_sealed_value_with("aead::Error"@)
                    && plaintext@.len() / 64 >= 0xFFFF_FFFF),
            },
    {
        proof {
            use_type_invariant(self);
        }
        let nonce = match random_bytes(NONCE_LENGTH) {
            Ok(bytes) => bytes,
            Err(text) => {
                return Err(PassphraseError::Entropy(text));
            },
        };
        let ciphertext = match chacha20poly1305_seal(self.bytes.as_slice(), nonce.as_slice(), plaintext) {
            Some(c) => c,
            None => {
                return Err(PassphraseError::SealedValue(String::from_str("aead::Error")));
            },
        };
        let mut buffer: Vec<u8> = Vec::new();
        buffer.push(SEALED_VERSION);
        crate::bytes::append_bytes(&mut buffer, nonce.as_slice());
        crate::bytes::append_bytes(&mut buffer, ciphertext.as_slice());
        assert(buffer@.subrange(1, 1 + NONCE_LENGTH) =~= nonce@);
        assert(buffer@.subrange(1 + NONCE_LENGTH, buffer@.len() as int) =~= ciphertext@);
        Ok(buffer)
    }

    /// Opens a storage-format envelope. A malformed envelope, or one that
    /// fails authentication, is refused; every envelope this key sealed
    /// opens to its plaintext.
    pub fn open(&self, raw: &[u8]) -> (r: Result<Vec<u8>, PassphraseError>)
        ensures
            match sealed_format_problem(raw@) {
                Some(problem) => r matches Err(e) && e.is_sealed_value_with(
                    "sealed value failure: "@ + problem,
                ),
                None => match spec_chacha20poly1305_open(
                    self.spec_key(),
                    raw@.subrange(1, 1 + NONCE_LENGTH),
                    raw@.subrange(1 + NONCE_LENGTH, raw@.len() as int),
                ) {
                    Some(p) => r matches Ok(v) && v@ == p,
                    None => r matches Err(e) && e.is_sealed_value_with(
                        "passphrase-sealed payload failed authentication; the passphrase may be wrong or the archive may be damaged"@,
                    ),
                },
            },
            forall|p: Seq<u8>| #[trigger] raw_seals(self.spec_key(), p, raw@) ==> (r matches Ok(v)
                && v@ == p),
    {
        proof {
            use_type_invariant(self);
        }
        let sealed = match KeyVault::decode_sealed(raw) {
            Ok(sealed) => sealed,
            Err(error) => {
                return Err(PassphraseError::SealedValue(error.message()));
            },
        };
        if sealed.nonce.len() != NONCE_LENGTH {
            return Err(
                PassphraseError::SealedValue(String::from_str("sealed nonce has invalid length")),
            );
        }
        match chacha20poly1305_open(
            self.bytes.as_slice(),
            sealed.nonce.as_slice(),
            sealed.ciphertext.as_slice(),
        ) {
            Some(plaintext) => Ok(plaintext),
            None => Err(
                PassphraseError::SealedValue(
                    String::from_str(
                        "passphrase-sealed payload failed authentication; the passphrase may be wrong or the archive may be damaged",
                    ),
                ),
            ),
        }
    }
}

/// Generates a fresh random salt for passphrase derivation.
pub fn generate_salt() -> (r: Result<Vec<u8>, PassphraseError>)
    ensures
        r matches Ok(salt) ==> salt@.len() == PASSPHRASE_SALT_LENGTH,
        r matches Err(e) ==> e is Entropy,
{
    match random_bytes(PASSPHRASE_SALT_LENGTH) {
        Ok(salt) => Ok(salt),
        Err(text) => Err(PassphraseError::Entropy(text)),
    }
}

} // verus!
