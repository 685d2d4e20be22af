use aura::security::key_vault::{
    dev_unwrap_key, dev_wrap_key, KeyVault, KeyVaultError, SealedValue, KEY_LENGTH, SEALED_VERSION,
};
use aura::security::passphrase::{
    generate_salt, Passphrase, PassphraseError, PassphraseKey, PASSPHRASE_SALT_LENGTH,
};

fn temp_vault() -> KeyVault {
    let (vault, _blob) = KeyVault::new("/tmp/aura-keyvault".to_string(), None).expect("open key vault");
    vault
}

#[test]
fn first_use_generates_key_material_and_persists_only_a_wrapped_blob() {
    let (vault, blob) = KeyVault::new("/tmp/aura-keyvault".to_string(), None).expect("open key vault");
    let blob = blob.expect("a first use hands back the wrapped blob to persist");
    assert_eq!(blob.len(), 1 + KEY_LENGTH);
    let status = vault.status(true);
    assert!(status.wrapped_key_persisted);
    assert_eq!(status.key_length, KEY_LENGTH);
    assert_eq!(status.sealed_version, SEALED_VERSION);
}

#[test]
fn seal_and_open_are_lossless_for_arbitrary_utf8() {
    let vault = temp_vault();
    let plaintext = "Aura context note: the release gate is DPAPI wrapping.".as_bytes();
    let sealed = vault.seal(plaintext).expect("seal");
    assert_eq!(sealed.version, SEALED_VERSION);
    assert_eq!(sealed.nonce.len(), 12);
    let recovered = vault.open(&sealed).expect("open");
    assert_eq!(recovered, plaintext);
}

#[test]
fn key_vault_tampered_ciphertext_fails_authentication() {
    let vault = temp_vault();
    let sealed = vault.seal(b"secret").expect("seal");
    let mut tampered = sealed.ciphertext.clone();
    let last = tampered.len() - 1;
    tampered[last] = tampered[last].wrapping_add(1);
    let result = vault.open(&SealedValue {
        ciphertext: tampered,
        ..sealed
    });
    assert!(
        result.is_err(),
        "a tampered envelope must fail AEAD authentication",
    );
}

#[test]
fn sealed_values_roundtrip_through_the_storage_format() {
    let vault = temp_vault();
    let plaintext = "cross-version storage format check".as_bytes();
    let sealed = vault.seal(plaintext).expect("seal");
    let encoded = KeyVault::encode_sealed(&sealed);
    assert_eq!(encoded[0], SEALED_VERSION);
    assert_eq!(encoded.len(), 1 + 12 + sealed.ciphertext.len());
    let decoded = KeyVault::decode_sealed(&encoded).expect("decode");
    assert_eq!(decoded, sealed);
    assert_eq!(vault.open(&decoded).expect("open"), plaintext);
}

#[test]
fn malformed_storage_envelopes_are_rejected() {
    assert!(KeyVault::decode_sealed(&[]).is_err());
    assert!(KeyVault::decode_sealed(&[0x02, 0, 0, 0, 0, 0, 0, 0, 0, 0, 0, 0, 0]).is_err());
    assert!(KeyVault::decode_sealed(&[SEALED_VERSION, 0, 0]).is_err());
    assert!(
        KeyVault::decode_sealed(&[SEALED_VERSION, 0, 0, 0, 0, 0, 0, 0, 0, 0, 0, 0, 0]).is_err()
    );
}

#[test]
fn vault_reopens_an_existing_wrapped_blob() {
    let (first, blob) = KeyVault::new("/tmp/aura-reopen".to_string(), None).expect("open first vault");
    let blob = blob.expect("wrapped blob");
    let raw = KeyVault::encode_sealed(&first.seal(b"persisted across restart").expect("seal"));
    let (second, again) = KeyVault::new("/tmp/aura-reopen".to_string(), Some(blob)).expect("open second vault");
    assert!(again.is_none());
    let decoded = KeyVault::decode_sealed(&raw).expect("decode");
    assert_eq!(
        second.open(&decoded).expect("open"),
        b"persisted across restart",
        "a later process must unwrap the same key and open earlier envelopes",
    );
}

#[test]
fn malformed_envelopes_report_why() {
    match KeyVault::decode_sealed(&[0x02, 0, 0]) {
        Err(error) => assert_eq!(error.message(), "sealed value failure: unknown sealed version 2"),
        Ok(_) => panic!("version 2 is unknown"),
    }
    assert!(matches!(
        KeyVault::decode_sealed(&[]),
        Err(KeyVaultError::SealedValue(ref m)) if m == "sealed value is empty"
    ));
}

#[test]
fn development_wrapper_roundtrips_the_key() {
    let key = [9u8; KEY_LENGTH];
    let blob = dev_wrap_key(&key);
    assert_eq!(dev_unwrap_key(&blob).expect("unwrap"), key.to_vec());
    assert!(dev_unwrap_key(&blob[1..]).is_err());
}

#[test]
fn derivation_is_deterministic_for_the_same_salt_and_passphrase() {
    let passphrase = Passphrase::new("correct-horse-battery-staple".to_string());
    let salt = [7u8; PASSPHRASE_SALT_LENGTH];
    let first = PassphraseKey::derive(&passphrase, &salt).expect("derive");
    let second = PassphraseKey::derive(&passphrase, &salt).expect("derive");
    let sealed = first.seal(b"same key").expect("seal");
    assert_eq!(second.open(&sealed).expect("the same key opens it"), b"same key");
}

#[test]
fn different_salt_or_passphrase_produces_different_keys() {
    let passphrase = Passphrase::new("correct-horse-battery-staple".to_string());
    let key_a = PassphraseKey::derive(&passphrase, &[1u8; PASSPHRASE_SALT_LENGTH]).expect("derive");
    let key_b = PassphraseKey::derive(&passphrase, &[2u8; PASSPHRASE_SALT_LENGTH]).expect("derive");
    let key_c = PassphraseKey::derive(
        &Passphrase::new("a different passphrase entirely".to_string()),
        &[1u8; PASSPHRASE_SALT_LENGTH],
    )
    .expect("derive");
    let sealed = key_a.seal(b"key a").expect("seal");
    assert!(key_b.open(&sealed).is_err());
    assert!(key_c.open(&sealed).is_err());
}

#[test]
fn seal_and_open_roundtrip_with_a_derived_key() {
    let passphrase = Passphrase::new("Twilight-Sparkle-42".to_string());
    let salt = generate_salt().expect("salt");
    let key = PassphraseKey::derive(&passphrase, &salt).expect("derive");
    let sealed = key.seal(b"everything stays local").expect("seal");
    let opened = key.open(&sealed).expect("open");
    assert_eq!(opened, b"everything stays local");
}

#[test]
fn wrong_passphrase_fails_authentication() {
    let passphrase = Passphrase::new("Twilight-Sparkle-42".to_string());
    let salt = generate_salt().expect("salt");
    let key = PassphraseKey::derive(&passphrase, &salt).expect("derive");
    let sealed = key.seal(b"secret workspace").expect("seal");
    let other = PassphraseKey::derive(&Passphrase::new("twilight-sparkle-41".to_string()), &salt)
        .expect("derive");
    assert!(other.open(&sealed).is_err());
}

#[test]
fn passphrase_tampered_ciphertext_fails_authentication() {
    let passphrase = Passphrase::new("Twilight-Sparkle-42".to_string());
    let salt = generate_salt().expect("salt");
    let key = PassphraseKey::derive(&passphrase, &salt).expect("derive");
    let mut sealed = key.seal(b"secret workspace").expect("seal");
    let last = sealed.len() - 1;
    sealed[last] ^= 0xFF;
    assert!(key.open(&sealed).is_err());
}

#[test]
fn strength_gate_accepts_long_or_mixed_passphrases() {
    assert!(Passphrase::new("a short one!".to_string()).meets_strength_gate());
    assert!(Passphrase::new("Abcd1234".to_string()).meets_strength_gate());
    assert!(!Passphrase::new("short".to_string()).meets_strength_gate());
    assert!(!Passphrase::new("a short one".to_string()).meets_strength_gate());
    assert!(!Passphrase::new("Abcd123".to_string()).meets_strength_gate());
    assert!(!Passphrase::new("abcd1234".to_string()).meets_strength_gate());
    assert!(!Passphrase::new("ABCD1234".to_string()).meets_strength_gate());
}

#[test]
fn passphrase_is_zeroed_on_drop() {
    let original = "do-not-leak-me".to_string();
    let passphrase = Passphrase::new(original.clone());
    assert_eq!(passphrase.as_bytes(), original.as_bytes());
}

#[test]
fn envelope_format_contains_no_passphrase_trace() {
    let passphrase = Passphrase::new("VerySecret-Passphrase-9".to_string());
    let salt = generate_salt().expect("salt");
    let key = PassphraseKey::derive(&passphrase, &salt).expect("derive");
    let sealed = key.seal(b"payload").expect("seal");
    assert!(
        sealed
            .windows(passphrase.as_bytes().len())
            .all(|window| window != passphrase.as_bytes()),
        "envelope transport form must not carry the passphrase as text",
    );
    let second = key.seal(b"payload").expect("seal");
    assert_ne!(sealed, second);
}

#[test]
fn malformed_passphrase_envelopes_are_refused() {
    let passphrase = Passphrase::new("Twilight-Sparkle-42".to_string());
    let key = PassphraseKey::derive(&passphrase, &[3u8; PASSPHRASE_SALT_LENGTH]).expect("derive");
    match key.open(&[SEALED_VERSION, 1, 2]) {
        Err(PassphraseError::SealedValue(m)) => {
            assert_eq!(m, "sealed value failure: sealed value is too short to hold a nonce")
        }
        _ => panic!("a short envelope is malformed"),
    }
    assert_eq!(generate_salt().expect("salt").len(), PASSPHRASE_SALT_LENGTH);
}

#[test]
fn passphrases_are_equal_exactly_when_their_bytes_are() {
    let a = Passphrase::new("Twilight-Sparkle-42".to_string());
    assert!(a == Passphrase::new("Twilight-Sparkle-42".to_string()));
    assert!(a != Passphrase::new("Twilight-Sparkle-41".to_string()));
    assert!(a != Passphrase::new("Twilight-Sparkle-4".to_string()));
    assert!(Passphrase::new(String::new()) == Passphrase::new(String::new()));
}
