//! Local export and recovery of the workspace.
//!
//! An archive is an envelope: a plaintext manifest next to the workspace
//! payload, sealed either with the workspace key or with a key derived from
//! a passphrase. Reading the records out of the store and writing them back
//! happen around this module; here the payload is sealed, opened, checked
//! against its manifest, and every imported record is validated before it is
//! written.
use crate::domain::capture::CaptureRetention;
use crate::domain::export::{
    ExportEvent, ExportManifest, ExportRecordCounts, DPAPI_SEALING, EXPORT_FORMAT_VERSION, PASSPHRASE_SEALING,
};
use crate::domain::project::AuraError;
use crate::security::crypto::{
    hex_bytes, hex_decode, hex_encode, hex_text, lemma_hex_roundtrip, sha256,
    spec_argon2id_derive, spec_chacha20poly1305_open, spec_hex_error_text, spec_sha256,
    AEAD_TAG_LENGTH,
};
use crate::security::key_vault::{sealed_format_problem, KeyVault, KeyVaultError, NONCE_LENGTH};
use crate::security::passphrase::{
    generate_salt, raw_seals, strong_enough, Passphrase, PassphraseError, PassphraseKey, ARGON2_M_COST, ARGON2_P_COST,
    ARGON2_T_COST, PASSPHRASE_KEY_LENGTH, PASSPHRASE_SALT_LENGTH,
};
use crate::text::{
    byte_len, has_prefix, is_blank, join_with, joined, same_text, trim_text, trimmed, signed_decimal, signed_decimal_text, spec_utf8_error_text,
    utf8_len, utf8_text,
};
use crate::time::{is_rendered_instant, utc_timestamp};
use vstd::prelude::*;
use vstd::utf8::{
    decode_utf8, decode_utf8_encode_utf8, encode_utf8, encode_utf8_decode_utf8,
    encode_utf8_valid_utf8, valid_utf8,
};

verus! {

/// Application version written into every manifest.
pub const EXPORT_APP_VERSION: &'static str = "0.1.0";

/// Public argon2id parameters stored next to a passphrase-sealed payload.
/// They are not secret: they only let any installation derive the same key
/// from the same salt and passphrase.
#[derive(Clone, Copy, Debug, PartialEq, Eq, Structural)]
pub struct PassphraseParams {
    pub memory_cost_kib: u32,
    pub time_cost: u32,
    pub parallelism: u32,
}

impl PassphraseParams {
    /// The parameters this workspace derives passphrase keys with.
    pub open spec fn spec_defaults() -> PassphraseParams {
        PassphraseParams {
            memory_cost_kib: ARGON2_M_COST,
            time_cost: ARGON2_T_COST,
            parallelism: ARGON2_P_COST,
        }
    }

    /// The OWASP-recommended argon2id parameters the workspace uses.
    pub fn owasp_defaults() -> (r: PassphraseParams)
        ensures
            r == PassphraseParams::spec_defaults(),
    {
        PassphraseParams {
            memory_cost_kib: ARGON2_M_COST,
            time_cost: ARGON2_T_COST,
            parallelism: ARGON2_P_COST,
        }
    }
}

/// The archive as written to disk: the plaintext manifest fields, the
/// sealed payload in hexadecimal, and, for passphrase archives, the salt and
/// the public derivation parameters. Version 2 envelopes carry the
/// `sealing` discriminator; version 1 envelopes have none and are always
/// sealed with the workspace key.
#[derive(Clone, Debug)]
pub struct ExportEnvelope {
    pub format_version: i64,
    /// How the payload was sealed: `dpapi` or `passphrase`.
    pub sealing: String,
    pub exported_at: String,
    pub exported_by_version: String,
    pub record_counts: ExportRecordCounts,
    /// Lower-case hexadecimal SHA-256 of the payload text.
    pub payload_checksum: String,
    /// Hexadecimal storage form of the sealed payload: one version byte,
    /// the nonce, then the ciphertext.
    pub payload_sealed_hex: String,
    pub passphrase_salt_hex: Option<String>,
    pub passphrase_params: Option<PassphraseParams>,
}

/// The records a workspace payload carries, each already in its JSON form.
#[derive(Clone, Debug)]
pub struct PayloadRecords {
    pub projects: Vec<String>,
    pub captures: Vec<String>,
    pub decisions: Vec<String>,
    pub exclusion_rules: Vec<String>,
    pub settings: Vec<String>,
}

/// The texts of a list of records.
pub open spec fn record_texts(records: Seq<String>) -> Seq<Seq<char>> {
    records.map_values(|r: String| r@)
}

/// A JSON array of the records, in order, separated by commas.
pub open spec fn json_array_of(records: Seq<String>) -> Seq<char> {
    "["@ + join_with(record_texts(records), ","@) + "]"@
}

/// The payload text of a workspace: one JSON object holding the record
/// arrays under `projects`, `captures`, `decisions`, `exclusionRules` and
/// `settings`, in that order.
pub open spec fn payload_text_of(records: PayloadRecords) -> Seq<char> {
    "{\"projects\":"@ + json_array_of(records.projects@) + ",\"captures\":"@ + json_array_of(
        records.captures@,
    ) + ",\"decisions\":"@ + json_array_of(records.decisions@) + ",\"exclusionRules\":"@
        + json_array_of(records.exclusion_rules@) + ",\"settings\":"@ + json_array_of(
        records.settings@,
    ) + "}"@
}

/// How many records of each kind a payload carries.
pub open spec fn counts_of(records: PayloadRecords) -> ExportRecordCounts {
    ExportRecordCounts {
        projects: records.projects@.len() as usize,
        captures: records.captures@.len() as usize,
        decisions: records.decisions@.len() as usize,
        exclusion_rules: records.exclusion_rules@.len() as usize,
        settings: records.settings@.len() as usize,
    }
}

/// The JSON array of the records.
fn json_array(records: &Vec<String>) -> (r: String)
    ensures
        r@ == json_array_of(records@),
{
    let mut body = String::new();
    let mut i: usize = 0;
    while i < records.len()
        invariant
            i <= records@.len(),
            body@ == join_with(record_texts(records@.subrange(0, i as int)), ","@),
        decreases records.len() - i,
    {
        let ghost before = record_texts(records@.subrange(0, i as int));
        let ghost after = record_texts(records@.subrange(0, i + 1));
        assert(after.drop_last() =~= before);
        assert(after.last() == records@[i as int]@);
        assert(after.len() == i + 1);
        if i == 0 {
            body = records[i].clone();
            assert(join_with(after, ","@) == after[0]);
        } else {
            let with_comma = joined(body.as_str(), ",");
            body = joined(with_comma.as_str(), records[i].as_str());
            assert(join_with(after, ","@) == join_with(before, ","@) + ","@ + after.last());
        }
        i = i + 1;
    }
    assert(records@.subrange(0, records@.len() as int) =~= records@);
    let opened = joined("[", body.as_str());
    joined(opened.as_str(), "]")
}

/// The payload text of a workspace (see `payload_text_of`).
pub fn payload_text(records: &PayloadRecords) -> (r: String)
    ensures
        r@ == payload_text_of(*records),
{
    let projects = json_array(&records.projects);
    let captures = json_array(&records.captures);
    let decisions = json_array(&records.decisions);
    let exclusion_rules = json_array(&records.exclusion_rules);
    let settings = json_array(&records.settings);
    let mut text = joined("{\"projects\":", projects.as_str());
    text = joined(text.as_str(), ",\"captures\":");
    text = joined(text.as_str(), captures.as_str());
    text = joined(text.as_str(), ",\"decisions\":");
    text = joined(text.as_str(), decisions.as_str());
    text = joined(text.as_str(), ",\"exclusionRules\":");
    text = joined(text.as_str(), exclusion_rules.as_str());
    text = joined(text.as_str(), ",\"settings\":");
    text = joined(text.as_str(), settings.as_str());
    joined(text.as_str(), "}")
}

/// How many records of each kind the payload carries.
pub fn record_counts(records: &PayloadRecords) -> (r: ExportRecordCounts)
    ensures
        r == counts_of(*records),
{
    ExportRecordCounts {
        projects: records.projects.len(),
        captures: records.captures.len(),
        decisions: records.decisions.len(),
        exclusion_rules: records.exclusion_rules.len(),
        settings: records.settings.len(),
    }
}

/// The sealing an envelope without a `sealing` field has.
pub fn default_sealing() -> (r: String)
    ensures
        r@ == DPAPI_SEALING@,
{
    String::from_str(DPAPI_SEALING)
}

/// The checksum recorded for a payload text: the lower-case hexadecimal
/// SHA-256 of its UTF-8 bytes.
pub open spec fn payload_checksum_of(payload: Seq<char>) -> Seq<char> {
    hex_text(spec_sha256(encode_utf8(payload)))
}

/// Why an archive of this format version cannot be read, if it cannot.
pub open spec fn version_problem(version: i64) -> Option<Seq<char>> {
    if version > EXPORT_FORMAT_VERSION {
        Some(
            "Aura does not support export archives of format version "@ + (signed_decimal_text(
                version as int,
            ) + "; this build expects version 2."@),
        )
    } else if version < 1 {
        Some(
            "Aura does not support export archives of format version "@ + (signed_decimal_text(
                version as int,
            ) + "."@),
        )
    } else {
        None
    }
}

/// The salt text of an envelope; an absent salt reads as empty.
pub open spec fn salt_text(salt_hex: Option<String>) -> Seq<char> {
    match salt_hex {
        Some(s) => s@,
        None => ""@,
    }
}

/// The bytes of an optional passphrase.
pub open spec fn passphrase_view(passphrase: Option<Passphrase>) -> Option<Seq<u8>> {
    match passphrase {
        Some(p) => Some(p.spec_bytes()),
        None => None,
    }
}

/// Opening a sealed payload with the workspace key: its plaintext, or the
/// message the import is refused with.
pub open spec fn vault_opening(key: Seq<u8>, raw: Seq<u8>) -> Result<Seq<u8>, Seq<char>> {
    match sealed_format_problem(raw) {
        Some(problem) => Err(
            "The exported archive is damaged: its sealed envelope could not be read. "@ + (
            "sealed value failure: "@ + problem),
        ),
        None => match spec_chacha20poly1305_open(
            key,
            raw.subrange(1, 1 + NONCE_LENGTH),
            raw.subrange(1 + NONCE_LENGTH, raw.len() as int),
        ) {
            Some(p) => Ok(p),
            None => Err(
                "Aura could not open that archive: its sealed contents failed authentication. The archive may be damaged or was created on a computer with a different workspace key. "@
                    + ("sealed value failure: "@
                    + "sealed value failed authentication; the ciphertext may be tampered or bound to a different key"@),
            ),
        },
    }
}

/// Opening a sealed payload with the key derived from a passphrase and the
/// envelope's salt: its plaintext, or the message the import is refused
/// with.
pub open spec fn passphrase_opening(
    passphrase: Option<Seq<u8>>,
    salt_hex: Seq<char>,
    raw: Seq<u8>,
) -> Result<Seq<u8>, Seq<char>> {
    match hex_bytes(salt_hex) {
        None => Err(
            "The exported archive is damaged: its derivation salt is not valid hex. "@
                + spec_hex_error_text(salt_hex),
        ),
        Some(salt) => if salt.len() != PASSPHRASE_SALT_LENGTH {
            Err(
                "The exported archive is damaged: its derivation salt has an unexpected length."@,
            )
        } else {
            match passphrase {
                None => Err(
                    "That archive was sealed with a passphrase; the passphrase is required to open it."@,
                ),
                Some(pw) => match spec_argon2id_derive(
                    pw,
                    salt,
                    ARGON2_M_COST,
                    ARGON2_T_COST,
                    ARGON2_P_COST,
                    PASSPHRASE_KEY_LENGTH,
                ) {
                    Err(t) => Err(
                        "Aura could not derive the archive key from the passphrase: "@ + (
                        "derivation failure: "@ + t),
                    ),
                    Ok(key) => passphrase_key_opening(key, raw),
                },
            }
        },
    }
}

/// Opening a sealed payload with a derived key.
pub open spec fn passphrase_key_opening(key: Seq<u8>, raw: Seq<u8>) -> Result<Seq<u8>, Seq<char>> {
    match sealed_format_problem(raw) {
        Some(problem) => Err(
            "Aura could not open that archive: its sealed contents failed authentication with the supplied passphrase. "@
                + ("sealed value failure: "@ + ("sealed value failure: "@ + problem)),
        ),
        None => match spec_chacha20poly1305_open(
            key,
            raw.subrange(1, 1 + NONCE_LENGTH),
            raw.subrange(1 + NONCE_LENGTH, raw.len() as int),
        ) {
            Some(p) => Ok(p),
            None => Err(
                "Aura could not open that archive: its sealed contents failed authentication with the supplied passphrase. "@
                    + ("sealed value failure: "@
                    + "passphrase-sealed payload failed authentication; the passphrase may be wrong or the archive may be damaged"@),
            ),
        },
    }
}

/// Opening the sealed payload of an envelope with the key its sealing
/// calls for.
pub open spec fn envelope_opening(
    vault_key: Seq<u8>,
    passphrase: Option<Seq<u8>>,
    envelope: ExportEnvelope,
) -> Result<Seq<u8>, Seq<char>> {
    match hex_bytes(envelope.payload_sealed_hex@) {
        None => Err(
            "The exported archive is damaged: its sealed payload is not valid hex. "@
                + spec_hex_error_text(envelope.payload_sealed_hex@),
        ),
        Some(raw) => if envelope.sealing@ == PASSPHRASE_SEALING@ {
            passphrase_opening(passphrase, salt_text(envelope.passphrase_salt_hex), raw)
        } else {
            vault_opening(vault_key, raw)
        },
    }
}

/// What importing an envelope yields before any record is written: the
/// payload text, or the message the import is refused with.
pub open spec fn import_outcome(
    vault_key: Seq<u8>,
    passphrase: Option<Seq<u8>>,
    envelope: ExportEnvelope,
) -> Result<Seq<char>, Seq<char>> {
    match version_problem(envelope.format_version) {
        Some(problem) => Err(problem),
        None => match envelope_opening(vault_key, passphrase, envelope) {
            Err(message) => Err(message),
            Ok(bytes) => if !valid_utf8(bytes) {
                Err(
                    "The exported archive is damaged: its payload is not valid text. "@
                        + spec_utf8_error_text(bytes),
                )
            } else if hex_text(spec_sha256(bytes)) != envelope.payload_checksum@ {
                Err(
                    "The exported archive is damaged: its contents no longer match the recorded checksum."@,
                )
            } else {
                Ok(decode_utf8(bytes))
            },
        },
    }
}

/// `envelope` is an archive of `payload` sealed with the workspace key
/// `key`.
pub open spec fn sealed_for_workspace(
    key: Seq<u8>,
    payload: Seq<char>,
    envelope: ExportEnvelope,
) -> bool {
    &&& envelope.format_version == EXPORT_FORMAT_VERSION
    &&& envelope.sealing@ == DPAPI_SEALING@
    &&& envelope.payload_checksum@ == payload_checksum_of(payload)
    &&& envelope.passphrase_salt_hex is None
    &&& envelope.passphrase_params is None
    &&& match hex_bytes(envelope.payload_sealed_hex@) {
        Some(raw) => raw_seals(key, encode_utf8(payload), raw),
        None => false,
    }
}

/// `envelope` is an archive of `payload` sealed with a key derived from
/// the passphrase bytes `passphrase` and a fresh salt.
pub open spec fn sealed_with_passphrase(
    passphrase: Seq<u8>,
    payload: Seq<char>,
    envelope: ExportEnvelope,
) -> bool {
    &&& envelope.format_version == EXPORT_FORMAT_VERSION
    &&& envelope.sealing@ == PASSPHRASE_SEALING@
    &&& envelope.payload_checksum@ == payload_checksum_of(payload)
    &&& envelope.passphrase_params == Some(PassphraseParams::spec_defaults())
    &&& match hex_bytes(salt_text(envelope.passphrase_salt_hex)) {
        Some(salt) => {
            &&& envelope.passphrase_salt_hex is Some
            &&& salt.len() == PASSPHRASE_SALT_LENGTH
            &&& match spec_argon2id_derive(
                passphrase,
                salt,
                ARGON2_M_COST,
                ARGON2_T_COST,
                ARGON2_P_COST,
                PASSPHRASE_KEY_LENGTH,
            ) {
                Ok(key) => match hex_bytes(envelope.payload_sealed_hex@) {
                    Some(raw) => raw_seals(key, encode_utf8(payload), raw),
                    None => false,
                },
                Err(_) => false,
            }
        },
        None => false,
    }
}

/// The manifest of a readable envelope.
pub open spec fn manifest_of(envelope: ExportEnvelope, manifest: ExportManifest) -> bool {
    &&& manifest.format_version == envelope.format_version
    &&& manifest.sealing@ == envelope.sealing@
    &&& manifest.exported_at@ == envelope.exported_at@
    &&& manifest.exported_by_version@ == envelope.exported_by_version@
    &&& manifest.record_counts == envelope.record_counts
    &&& manifest.payload_checksum@ == envelope.payload_checksum@
    &&& manifest.payload_sealed_length == utf8_len(envelope.payload_sealed_hex@) / 2
}

/// Seals workspace payloads into archives and opens archives back.
pub struct ExportService<'a> {
    key_vault: &'a KeyVault,
    /// The passphrase that opens passphrase-sealed archives, when supplied.
    passphrase: Option<Passphrase>,
}

impl<'a> ExportService<'a> {
    /// The workspace key archives are sealed and opened with.
    pub closed spec fn vault_key(&self) -> Seq<u8> {
        self.key_vault.spec_key()
    }

    /// The bytes of the supplied passphrase, if any.
    pub closed spec fn passphrase_bytes(&self) -> Option<Seq<u8>> {
        passphrase_view(self.passphrase)
    }

    pub fn new(key_vault: &'a KeyVault) -> (r: ExportService<'a>)
        ensures
            r.vault_key() == key_vault.spec_key(),
            r.passphrase_bytes() is None,
    {
        ExportService { key_vault, passphrase: None }
    }

    /// Supplies (or withdraws) the passphrase that opens passphrase-sealed
    /// archives.
    pub fn set_passphrase(&mut self, passphrase: Option<Passphrase>)
        ensures
            final(self).vault_key() == old(self).vault_key(),
            final(self).passphrase_bytes() == passphrase_view(passphrase),
    {
        self.passphrase = passphrase;
    }

    /// Seals a serialized workspace payload with the workspace key. The
    /// envelope records the counts, the payload's checksum and the moment
    /// of the export; the sealed payload opens only with this workspace key.
    pub fn assemble_export(&self, records: &PayloadRecords) -> (r: Result<ExportEnvelope, AuraError>)
        requires
            encode_utf8(payload_text_of(*records)).len() + AEAD_TAG_LENGTH <= usize::MAX,
        ensures
            match r {
                Ok(envelope) => {
                    &&& sealed_for_workspace(self.vault_key(), payload_text_of(*records), envelope)
                    &&& envelope.record_counts == counts_of(*records)
                    &&& envelope.payload_checksum@.len() == 64
                    &&& envelope.exported_by_version@ == EXPORT_APP_VERSION@
                    &&& is_rendered_instant(envelope.exported_at@)
                },
                Err(e) => {
                    &&& e is Storage
                    &&& has_prefix(
                        e.spec_message(),
                        "Aura could not seal its local workspace for export: "@,
                    )
                    &&& encode_utf8(payload_text_of(*records)).len() / 64 < 0xFFFF_FFFF ==> has_prefix(
                        e.spec_message(),
                        "Aura could not seal its local workspace for export: "@
                            + "entropy failure: "@,
                    )
                },
            },
    {
        let payload_json = payload_text(records);
        let record_counts = record_counts(records);
        let bytes = payload_json.as_str().as_bytes();
        let digest = sha256(bytes);
        let payload_checksum = hex_encode(digest.as_slice());
        assert(payload_checksum@.len() == 64);
        let sealed = match self.key_vault.seal(bytes) {
            Ok(sealed) => sealed,
            Err(error) => {
                let detail = error.message();
                let message = joined(
                    "Aura could not seal its local workspace for export: ",
                    detail.as_str(),
                );
                proof {
                    let prefix = "Aura could not seal its local workspace for export: "@;
                    lemma_prefix_of_joined(prefix, "entropy failure: "@, detail@);
                    if let KeyVaultError::Entropy(t) = error {
                        lemma_prefix_of_joined(prefix, "entropy failure: "@, t@);
                    }
                }
                return Err(AuraError::Storage(message));
            },
        };
        let raw = KeyVault::encode_sealed(&sealed);
        let payload_sealed_hex = hex_encode(raw.as_slice());
        proof {
            lemma_hex_roundtrip(raw@);
            assert(raw@.subrange(1, 1 + NONCE_LENGTH) =~= sealed.nonce@);
            assert(raw@.subrange(1 + NONCE_LENGTH, raw@.len() as int) =~= sealed.ciphertext@);
        }
        Ok(
            ExportEnvelope {
                format_version: EXPORT_FORMAT_VERSION,
                sealing: String::from_str(DPAPI_SEALING),
                exported_at: utc_timestamp(),
                exported_by_version: String::from_str(EXPORT_APP_VERSION),
                record_counts,
                payload_checksum,
                payload_sealed_hex,
                passphrase_salt_hex: None,
                passphrase_params: None,
            },
        )
    }

    /// Seals a serialized workspace payload with a key derived from a
    /// passphrase and a fresh random salt. A passphrase that fails the
    /// strength gate is refused before anything is derived; the salt and the
    /// public derivation parameters travel in the envelope, so any
    /// installation can open the archive with the same passphrase.
    pub fn assemble_passphrase_export(
        &self,
        passphrase: Passphrase,
        records: &PayloadRecords,
    ) -> (r: Result<ExportEnvelope, AuraError>)
        requires
            encode_utf8(payload_text_of(*records)).len() + AEAD_TAG_LENGTH <= usize::MAX,
        ensures
            !strong_enough(passphrase.spec_bytes()) ==> (r matches Err(e) && e.is_invalid_input_with(
                "Choose a stronger passphrase: at least 12 characters, or 8 characters mixing upper case, lower case, and digits."@,
            )),
            match r {
                Ok(envelope) => {
                    &&& sealed_with_passphrase(passphrase.spec_bytes(), payload_text_of(*records), envelope)
                    &&& envelope.record_counts == counts_of(*records)
                    &&& envelope.payload_checksum@.len() == 64
                    &&& envelope.exported_by_version@ == EXPORT_APP_VERSION@
                    &&& is_rendered_instant(envelope.exported_at@)
                },
                Err(e) => strong_enough(passphrase.spec_bytes()) ==> {
                    &&& e is Storage
                    &&& {
                        ||| has_prefix(
                            e.spec_message(),
                            "Aura could not produce a derivation salt for the export: "@
                                + "entropy failure: "@,
                        )
                        ||| has_prefix(
                            e.spec_message(),
                            "Aura could not seal its local workspace with the passphrase key: "@
                                + "entropy failure: "@,
                        )
                        ||| passphrase.spec_bytes().len() > 0xFFFF_FFFF && has_prefix(
                            e.spec_message(),
                            "Aura could not derive the export key from the passphrase: "@
                                + "derivation failure: "@,
                        )
                        ||| encode_utf8(payload_text_of(*records)).len() / 64 >= 0xFFFF_FFFF
                            && e.spec_message()
                            == "Aura could not seal its local workspace with the passphrase key: "@
                            + ("sealed value failure: "@ + "aead::Error"@)
                    }
                },
            },
    {
        if !passphrase.meets_strength_gate() {
            return Err(
                AuraError::InvalidInput(
                    String::from_str(
                        "Choose a stronger passphrase: at least 12 characters, or 8 characters mixing upper case, lower case, and digits.",
                    ),
                ),
            );
        }
        let payload_json = payload_text(records);
        let record_counts = record_counts(records);
        let bytes = payload_json.as_str().as_bytes();
        let digest = sha256(bytes);
        let payload_checksum = hex_encode(digest.as_slice());
        assert(payload_checksum@.len() == 64);
        let salt = match generate_salt() {
            Ok(salt) => salt,
            Err(error) => {
                let detail = error.message();
                let message = joined(
                    "Aura could not produce a derivation salt for the export: ",
                    detail.as_str(),
                );
                proof {
                    if let PassphraseError::Entropy(t) = error {
                        lemma_prefix_of_joined(
                            "Aura could not produce a derivation salt for the export: "@,
                            "entropy failure: "@,
                            t@,
                        );
                    }
                }
                return Err(AuraError::Storage(message));
            },
        };
        let key = match PassphraseKey::derive(&passphrase, salt.as_slice()) {
            Ok(key) => key,
            Err(error) => {
                let detail = error.message();
                let message = joined(
                    "Aura could not derive the export key from the passphrase: ",
                    detail.as_str(),
                );
                proof {
                    if let PassphraseError::Derivation(t) = error {
                        lemma_prefix_of_joined(
                            "Aura could not derive the export key from the passphrase: "@,
                            "derivation failure: "@,
                            t@,
                        );
                    }
                }
                return Err(AuraError::Storage(message));
            },
        };
        let sealed_raw = match key.seal(bytes) {
            Ok(raw) => raw,
            Err(error) => {
                let detail = error.message();
                let message = joined(
                    "Aura could not seal its local workspace with the passphrase key: ",
                    detail.as_str(),
                );
                proof {
                    if let PassphraseError::Entropy(t) = error {
                        lemma_prefix_of_joined(
                            "Aura could not seal its local workspace with the passphrase key: "@,
                            "entropy failure: "@,
                            t@,
                        );
                    }
                }
                return Err(AuraError::Storage(message));
            },
        };
        let payload_sealed_hex = hex_encode(sealed_raw.as_slice());
        let salt_hex = hex_encode(salt.as_slice());
        proof {
            lemma_hex_roundtrip(sealed_raw@);
            lemma_hex_roundtrip(salt@);
        }
        Ok(
            ExportEnvelope {
                format_version: EXPORT_FORMAT_VERSION,
                sealing: String::from_str(PASSPHRASE_SEALING),
                exported_at: utc_timestamp(),
                exported_by_version: String::from_str(EXPORT_APP_VERSION),
                record_counts,
                payload_checksum,
                payload_sealed_hex,
                passphrase_salt_hex: Some(salt_hex),
                passphrase_params: Some(PassphraseParams::owasp_defaults()),
            },
        )
    }

    /// The plaintext manifest of an envelope; no record content is opened.
    /// Envelopes of an unsupported format version are refused.
    pub fn envelope_manifest(envelope: &ExportEnvelope) -> (r: Result<ExportManifest, AuraError>)
        ensures
            match version_problem(envelope.format_version) {
                Some(problem) => r matches Err(e) && e.is_invalid_input_with(problem),
                None => r matches Ok(manifest) && manifest_of(*envelope, manifest),
            },
    {
        if let Some(problem) = format_version_problem(envelope.format_version) {
            return Err(AuraError::InvalidInput(problem));
        }
        Ok(
            ExportManifest {
                format_version: envelope.format_version,
                sealing: envelope.sealing.clone(),
                exported_at: envelope.exported_at.clone(),
                exported_by_version: envelope.exported_by_version.clone(),
                record_counts: envelope.record_counts,
                payload_checksum: envelope.payload_checksum.clone(),
                payload_sealed_length: byte_len(&envelope.payload_sealed_hex) / 2,
            },
        )
    }

    /// Opens a passphrase-sealed payload with the key derived from the
    /// supplied passphrase and the envelope's salt.
    fn open_with_passphrase(&self, envelope: &ExportEnvelope, raw: &[u8]) -> (r: Result<
        Vec<u8>,
        AuraError,
    >)
        ensures
            match passphrase_opening(
                self.passphrase_bytes(),
                salt_text(envelope.passphrase_salt_hex),
                raw@,
            ) {
                Ok(bytes) => r matches Ok(v) && v@ == bytes,
                Err(message) => r matches Err(e) && e.is_invalid_input_with(message),
            },
            forall|p: Seq<char>|
                #![trigger sealed_with_passphrase(self.passphrase_bytes()->0, p, *envelope)]
                self.passphrase_bytes() is Some && sealed_with_passphrase(
                    self.passphrase_bytes()->0,
                    p,
                    *envelope,
                ) && hex_bytes(envelope.payload_sealed_hex@) == Some(raw@) ==> (r matches Ok(v)
                    && v@ == encode_utf8(p)),
    {
        let salt_hex: &str = match &envelope.passphrase_salt_hex {
            Some(text) => text.as_str(),
            None => "",
        };
        let salt = match hex_decode(salt_hex) {
            Ok(salt) => salt,
            Err(detail) => {
                return Err(
                    AuraError::InvalidInput(
                        joined(
                            "The exported archive is damaged: its derivation salt is not valid hex. ",
                            detail.as_str(),
                        ),
                    ),
                );
            },
        };
        if salt.len() != PASSPHRASE_SALT_LENGTH {
            return Err(
                AuraError::InvalidInput(
                    String::from_str(
                        "The exported archive is damaged: its derivation salt has an unexpected length.",
                    ),
                ),
            );
        }
        let passphrase = match &self.passphrase {
            Some(passphrase) => passphrase,
            None => {
                return Err(
                    AuraError::InvalidInput(
                        String::from_str(
                            "That archive was sealed with a passphrase; the passphrase is required to open it.",
                        ),
                    ),
                );
            },
        };
        let key = match PassphraseKey::derive(passphrase, salt.as_slice()) {
            Ok(key) => key,
            Err(error) => {
                return Err(
                    AuraError::InvalidInput(
                        joined(
                            "Aura could not derive the archive key from the passphrase: ",
                            error.message().as_str(),
                        ),
                    ),
                );
            },
        };
        match key.open(raw) {
            Ok(plaintext) => Ok(plaintext),
            Err(error) => Err(
                AuraError::InvalidInput(
                    joined(
                        "Aura could not open that archive: its sealed contents failed authentication with the supplied passphrase. ",
                        error.message().as_str(),
                    ),
                ),
            ),
        }
    }

    /// Opens the sealed payload of an envelope with the key its sealing
    /// calls for: the passphrase-derived key for passphrase archives, the
    /// workspace key otherwise.
    fn open_envelope(&self, envelope: &ExportEnvelope) -> (r: Result<Vec<u8>, AuraError>)
        ensures
            match envelope_opening(self.vault_key(), self.passphrase_bytes(), *envelope) {
                Ok(bytes) => r matches Ok(v) && v@ == bytes,
                Err(message) => r matches Err(e) && e.is_invalid_input_with(message),
            },
            forall|p: Seq<char>| #[trigger]
                sealed_for_workspace(self.vault_key(), p, *envelope) ==> (r matches Ok(v) && v@
                    == encode_utf8(p)),
            forall|p: Seq<char>|
                #![trigger sealed_with_passphrase(self.passphrase_bytes()->0, p, *envelope)]
                self.passphrase_bytes() is Some && sealed_with_passphrase(
                    self.passphrase_bytes()->0,
                    p,
                    *envelope,
                ) ==> (r matches Ok(v) && v@ == encode_utf8(p)),
    {
        proof {
            reveal_strlit("dpapi");
            reveal_strlit("passphrase");
            assert(DPAPI_SEALING@.len() != PASSPHRASE_SEALING@.len());
        }
        let raw = match hex_decode(envelope.payload_sealed_hex.as_str()) {
            Ok(raw) => raw,
            Err(detail) => {
                return Err(
                    AuraError::InvalidInput(
                        joined(
                            "The exported archive is damaged: its sealed payload is not valid hex. ",
                            detail.as_str(),
                        ),
                    ),
                );
            },
        };
        if same_text(envelope.sealing.as_str(), PASSPHRASE_SEALING) {
            return self.open_with_passphrase(envelope, raw.as_slice());
        }
        let sealed = match KeyVault::decode_sealed(raw.as_slice()) {
            Ok(sealed) => sealed,
            Err(error) => {
                return Err(
                    AuraError::InvalidInput(
                        joined(
                            "The exported archive is damaged: its sealed envelope could not be read. ",
                            error.message().as_str(),
                        ),
                    ),
                );
            },
        };
        let result = match self.key_vault.open(&sealed) {
            Ok(plaintext) => Ok(plaintext),
            Err(error) => Err(
                AuraError::InvalidInput(
                    joined(
                        "Aura could not open that archive: its sealed contents failed authentication. The archive may be damaged or was created on a computer with a different workspace key. ",
                        error.message().as_str(),
                    ),
                ),
            ),
        };
        proof {
            assert forall|p: Seq<char>| #[trigger]
                sealed_for_workspace(self.vault_key(), p, *envelope) implies (result matches Ok(v)
                && v@ == encode_utf8(p)) by {
                assert(self.key_vault.seals(encode_utf8(p), sealed));
            }
        }
        result
    }

    /// Opens an imported archive and checks it before any record is
    /// written: the format version must be supported, the payload must open
    /// with the key its sealing calls for, be UTF-8 text, and match the
    /// recorded checksum. Every archive this workspace sealed, and every
    /// passphrase archive sealed with the supplied passphrase, opens to the
    /// payload it was sealed from.
    pub fn open_import(&self, envelope: &ExportEnvelope) -> (r: Result<String, AuraError>)
        ensures
            match import_outcome(self.vault_key(), self.passphrase_bytes(), *envelope) {
                Ok(payload) => r matches Ok(text) && text@ == payload,
                Err(message) => r matches Err(e) && e.is_invalid_input_with(message),
            },
            forall|p: Seq<char>| #[trigger]
                sealed_for_workspace(self.vault_key(), p, *envelope) ==> (r matches Ok(text)
                    && text@ == p),
            forall|p: Seq<char>|
                #![trigger sealed_with_passphrase(self.passphrase_bytes()->0, p, *envelope)]
                self.passphrase_bytes() is Some && sealed_with_passphrase(
                    self.passphrase_bytes()->0,
                    p,
                    *envelope,
                ) ==> (r matches Ok(text) && text@ == p),
    {
        if let Some(problem) = format_version_problem(envelope.format_version) {
            return Err(AuraError::InvalidInput(problem));
        }
        let payload_bytes = match self.open_envelope(envelope) {
            Ok(bytes) => bytes,
            Err(error) => {
                return Err(error);
            },
        };
        let ghost opened = payload_bytes@;
        let payload_json = match utf8_text(payload_bytes) {
            Ok(text) => text,
            Err(detail) => {
                proof {
                    assert forall|p: Seq<char>| #[trigger]
                        sealed_for_workspace(self.vault_key(), p, *envelope) implies false by {
                        encode_utf8_valid_utf8(p);
                    }
                    assert forall|p: Seq<char>|
                        #![trigger sealed_with_passphrase(self.passphrase_bytes()->0, p, *envelope)]
                        self.passphrase_bytes() is Some && sealed_with_passphrase(
                            self.passphrase_bytes()->0,
                            p,
                            *envelope,
                        ) implies false by {
                        encode_utf8_valid_utf8(p);
                    }
                }
                return Err(
                    AuraError::InvalidInput(
                        joined(
                            "The exported archive is damaged: its payload is not valid text. ",
                            detail.as_str(),
                        ),
                    ),
                );
            },
        };
        proof {
            decode_utf8_encode_utf8(opened);
        }
        let digest = sha256(payload_json.as_str().as_bytes());
        let checksum = hex_encode(digest.as_slice());
        if !same_text(checksum.as_str(), envelope.payload_checksum.as_str()) {
            return Err(
                AuraError::InvalidInput(
                    String::from_str(
                        "The exported archive is damaged: its contents no longer match the recorded checksum.",
                    ),
                ),
            );
        }
        proof {
            assert forall|p: Seq<char>| #[trigger]
                sealed_for_workspace(self.vault_key(), p, *envelope) implies payload_json@ == p by {
                encode_utf8_decode_utf8(p);
            }
            assert forall|p: Seq<char>|
                #![trigger sealed_with_passphrase(self.passphrase_bytes()->0, p, *envelope)]
                self.passphrase_bytes() is Some && sealed_with_passphrase(
                    self.passphrase_bytes()->0,
                    p,
                    *envelope,
                ) implies payload_json@ == p by {
                encode_utf8_decode_utf8(p);
            }
        }
        Ok(payload_json)
    }
}

/// An archive sealed with a passphrase cannot be opened without one:
/// importing it with no passphrase supplied is refused, whatever the
/// workspace key.
pub proof fn lemma_passphrase_archive_requires_passphrase(
    vault_key: Seq<u8>,
    passphrase: Seq<u8>,
    payload: Seq<char>,
    envelope: ExportEnvelope,
)
    requires
        sealed_with_passphrase(passphrase, payload, envelope),
    ensures
        import_outcome(vault_key, None, envelope) == Err::<Seq<char>, Seq<char>>(
            "That archive was sealed with a passphrase; the passphrase is required to open it."@,
        ),
{
}

/// How writing an archive to its destination ended.
pub enum ArchiveWrite {
    /// Written to the file at this path.
    Saved(String),
    /// The destination could not be written, for this reason.
    Failed(String),
    /// No destination was chosen.
    Cancelled,
}

/// What an export records in the audit table once the archive is written
/// or not, and the message it is refused with when it is not.
pub struct ExportReport {
    pub event: ExportEvent,
    pub detail: String,
    pub refusal: Option<String>,
}

/// The audit entry and outcome of an export, from how its write ended:
/// a saved archive completes the export and names where it went (and that
/// a passphrase sealed it); a failed or cancelled write is recorded as a
/// failure and refused.
pub fn export_report(write: ArchiveWrite, sealed_with_passphrase: bool) -> (r: ExportReport)
    ensures
        match write {
            ArchiveWrite::Saved(path) => {
                &&& r.event == ExportEvent::ExportCompleted
                &&& r.refusal is None
                &&& r.detail@ == (if sealed_with_passphrase {
                    "Aura exported its local workspace, sealed with a passphrase, to "@
                } else {
                    "Aura exported its local workspace to "@
                }) + (path@ + "."@)
            },
            ArchiveWrite::Failed(reason) => {
                &&& r.event == ExportEvent::ExportFailed
                &&& r.detail@ == "Aura could not write the archive: "@ + (reason@ + "."@)
                &&& r.refusal matches Some(m) && m@ == "Aura could not write the export archive: "@
                    + (reason@ + "."@)
            },
            ArchiveWrite::Cancelled => {
                &&& r.event == ExportEvent::ExportFailed
                &&& r.detail@ == "The export destination was cancelled."@
                &&& r.refusal matches Some(m) && m@
                    == "The export was cancelled before Aura could save the archive."@
            },
        },
{
    match write {
        ArchiveWrite::Saved(path) => {
            let tail = joined(path.as_str(), ".");
            let detail = if sealed_with_passphrase {
                joined("Aura exported its local workspace, sealed with a passphrase, to ", tail.as_str())
            } else {
                joined("Aura exported its local workspace to ", tail.as_str())
            };
            ExportReport { event: ExportEvent::ExportCompleted, detail, refusal: None }
        },
        ArchiveWrite::Failed(reason) => {
            let tail = joined(reason.as_str(), ".");
            ExportReport {
                event: ExportEvent::ExportFailed,
                detail: joined("Aura could not write the archive: ", tail.as_str()),
                refusal: Some(joined("Aura could not write the export archive: ", tail.as_str())),
            }
        },
        ArchiveWrite::Cancelled => ExportReport {
            event: ExportEvent::ExportFailed,
            detail: String::from_str("The export destination was cancelled."),
            refusal: Some(
                String::from_str("The export was cancelled before Aura could save the archive."),
            ),
        },
    }
}

/// Whether a stored capture goes into an export: deleted captures never
/// do, so removed context never reappears in a portable archive.
pub fn is_exported_capture(lifecycle_state: &str) -> (r: bool)
    ensures
        r == (lifecycle_state@ != "deleted"@),
{
    !same_text(lifecycle_state, "deleted")
}

/// The capture records an export carries, from the stored captures given
/// as (lifecycle state, record) pairs: the records of every capture that
/// is not deleted, in order.
pub open spec fn exported_capture_texts(rows: Seq<(String, String)>) -> Seq<Seq<char>>
    decreases rows.len(),
{
    if rows.len() == 0 {
        Seq::empty()
    } else {
        let kept = exported_capture_texts(rows.drop_last());
        if rows.last().0@ != "deleted"@ {
            kept.push(rows.last().1@)
        } else {
            kept
        }
    }
}

/// Keeps the records of the captures an export carries (see
/// `exported_capture_texts`).
pub fn exported_capture_records(rows: Vec<(String, String)>) -> (r: Vec<String>)
    ensures
        record_texts(r@) == exported_capture_texts(rows@),
{
    let mut kept: Vec<String> = Vec::new();
    let mut i: usize = 0;
    let n = rows.len();
    while i < n
        invariant
            n == rows@.len(),
            i <= n,
            record_texts(kept@) == exported_capture_texts(rows@.subrange(0, i as int)),
        decreases n - i,
    {
        let ghost before = rows@.subrange(0, i as int);
        let ghost after = rows@.subrange(0, i + 1);
        assert(after.drop_last() =~= before);
        assert(after.last() == rows@[i as int]);
        let ghost old_kept = kept@;
        if is_exported_capture(rows[i].0.as_str()) {
            kept.push(rows[i].1.clone());
            assert(record_texts(kept@) =~= record_texts(old_kept).push(rows@[i as int].1@));
        }
        i = i + 1;
    }
    assert(rows@.subrange(0, n as int) =~= rows@);
    kept
}

/// Compares the record counts recomputed from an imported payload with the
/// counts its manifest declares; a tampered inventory is refused.
pub fn check_record_counts(computed: ExportRecordCounts, manifest: ExportRecordCounts) -> (r:
    Result<ExportRecordCounts, AuraError>)
    ensures
        computed == manifest ==> r == Ok::<ExportRecordCounts, AuraError>(computed),
        computed != manifest ==> (r matches Err(e) && e.is_invalid_input_with(
            "The exported archive is damaged: its record inventory no longer matches the manifest."@,
        )),
{
    if computed != manifest {
        return Err(
            AuraError::InvalidInput(
                String::from_str(
                    "The exported archive is damaged: its record inventory no longer matches the manifest.",
                ),
            ),
        );
    }
    Ok(computed)
}

/// The project status an imported project record is written with: its own
/// when it has one, `active` otherwise.
pub open spec fn imported_status_text(status: Option<Seq<char>>) -> Seq<char> {
    match status {
        Some(s) => s,
        None => "active"@,
    }
}

/// Validates an imported project record: it must have a name, and a
/// supported status. Gives the trimmed name and the status to write.
pub fn check_imported_project(name: &str, status: Option<&str>) -> (r: Result<
    (String, &'static str),
    AuraError,
>)
    ensures
        is_blank(name@) ==> (r matches Err(e) && e.is_invalid_input_with(
            "The archive contains a project without a name."@,
        )),
        !is_blank(name@) ==> ({
            let text = imported_status_text(
                match status {
                    Some(s) => Some(s@),
                    None => None,
                },
            );
            if text == "active"@ || text == "paused"@ || text == "archived"@ {
                r matches Ok((n, s)) && n@ == trimmed(name@) && s@ == text
            } else {
                r matches Err(e) && e.is_invalid_input_with(
                    "The archive contains a project with an unsupported status: "@ + (text + "."@),
                )
            }
        }),
{
    let trimmed_name = trim_text(name);
    if trimmed_name.as_str().is_empty() {
        return Err(
            AuraError::InvalidInput(String::from_str("The archive contains a project without a name.")),
        );
    }
    let status_text: &str = match status {
        Some(s) => s,
        None => "active",
    };
    if same_text(status_text, "active") {
        Ok((trimmed_name, "active"))
    } else if same_text(status_text, "paused") {
        Ok((trimmed_name, "paused"))
    } else if same_text(status_text, "archived") {
        Ok((trimmed_name, "archived"))
    } else {
        let tail = joined(status_text, ".");
        Err(
            AuraError::InvalidInput(
                joined(
                    "The archive contains a project with an unsupported status: ",
                    tail.as_str(),
                ),
            ),
        )
    }
}

/// Validates an imported exclusion rule: a supported kind and a value.
/// Gives the trimmed value to write.
pub fn check_imported_exclusion(kind: &str, value: &str) -> (r: Result<String, AuraError>)
    ensures
        !(kind@ == "application"@ || kind@ == "domain"@ || kind@ == "project"@) ==> (r matches Err(
            e,
        ) && e.is_invalid_input_with(
            "The archive contains an exclusion rule with an unsupported type: "@ + (kind@ + "."@),
        )),
        (kind@ == "application"@ || kind@ == "domain"@ || kind@ == "project"@) ==> if is_blank(
            value@,
        ) {
            r matches Err(e) && e.is_invalid_input_with(
                "The archive contains an exclusion rule without a value."@,
            )
        } else {
            r matches Ok(v) && v@ == trimmed(value@)
        },
{
    if !(same_text(kind, "application") || same_text(kind, "domain") || same_text(kind, "project")) {
        let tail = joined(kind, ".");
        return Err(
            AuraError::InvalidInput(
                joined(
                    "The archive contains an exclusion rule with an unsupported type: ",
                    tail.as_str(),
                ),
            ),
        );
    }
    let trimmed_value = trim_text(value);
    if trimmed_value.as_str().is_empty() {
        return Err(
            AuraError::InvalidInput(
                String::from_str("The archive contains an exclusion rule without a value."),
            ),
        );
    }
    Ok(trimmed_value)
}

/// Validates an imported workspace setting: only the settings the workspace
/// persists are accepted, each with a supported value.
pub fn check_imported_setting(key: &str, value: &str) -> (r: Result<(), AuraError>)
    ensures
        !(key@ == "privacy_mode"@ || key@ == "default_capture_retention"@ || key@
            == "selected_project_id"@) ==> (r matches Err(e) && e.is_invalid_input_with(
            "The archive contains an unsupported workspace setting: "@ + (key@ + "."@),
        )),
        key@ == "default_capture_retention"@ ==> if CaptureRetention::spec_parse(value@) is None {
            r matches Err(e) && e.is_invalid_input_with(
                "The archive contains an unsupported capture retention value: "@ + (value@ + "."@),
            )
        } else {
            r is Ok
        },
        key@ == "privacy_mode"@ ==> if value@ != "manual_only"@ && value@ != "paused"@ {
            r matches Err(e) && e.is_invalid_input_with(
                "The archive contains an unsupported privacy mode: "@ + (value@ + "."@),
            )
        } else {
            r is Ok
        },
        key@ == "selected_project_id"@ ==> r is Ok,
{
    proof {
        reveal_strlit("privacy_mode");
        reveal_strlit("default_capture_retention");
        reveal_strlit("selected_project_id");
        assert("privacy_mode"@.len() != "default_capture_retention"@.len());
        assert("selected_project_id"@.len() != "default_capture_retention"@.len());
    }
    let known = same_text(key, "privacy_mode") || same_text(key, "default_capture_retention")
        || same_text(key, "selected_project_id");
    if !known {
        let tail = joined(key, ".");
        return Err(
            AuraError::InvalidInput(
                joined("The archive contains an unsupported workspace setting: ", tail.as_str()),
            ),
        );
    }
    if same_text(key, "default_capture_retention") {
        if CaptureRetention::from_store(value).is_err() {
            let tail = joined(value, ".");
            return Err(
                AuraError::InvalidInput(
                    joined(
                        "The archive contains an unsupported capture retention value: ",
                        tail.as_str(),
                    ),
                ),
            );
        }
    } else if same_text(key, "privacy_mode") && !same_text(value, "manual_only") && !same_text(
        value,
        "paused",
    ) {
        let tail = joined(value, ".");
        return Err(
            AuraError::InvalidInput(
                joined("The archive contains an unsupported privacy mode: ", tail.as_str()),
            ),
        );
    }
    Ok(())
}

/// Validates an imported capture record: a supported kind, classification
/// and retention. Gives the retention to write.
pub fn check_imported_capture(kind: &str, classification: &str, retention: &str) -> (r: Result<
    CaptureRetention,
    AuraError,
>)
    ensures
        !(kind@ == "manual_note"@ || kind@ == "pasted_text"@ || kind@ == "url"@) ==> (r matches Err(
            e,
        ) && e.is_invalid_input_with(
            "The archive contains a capture with an unsupported type: "@ + (kind@ + "."@),
        )),
        (kind@ == "manual_note"@ || kind@ == "pasted_text"@ || kind@ == "url"@) && !(
        classification@ == "standard"@ || classification@ == "sensitive"@) ==> (r matches Err(e)
            && e.is_invalid_input_with(
            "The archive contains a capture with an unsupported classification: "@ + (
            classification@ + "."@),
        )),
        (kind@ == "manual_note"@ || kind@ == "pasted_text"@ || kind@ == "url"@) && (
        classification@ == "standard"@ || classification@ == "sensitive"@) ==> match CaptureRetention::spec_parse(
            retention@,
        ) {
            Some(v) => r == Ok::<CaptureRetention, AuraError>(v),
            None => r matches Err(e) && e.is_invalid_input_with(
                "The archive contains a capture with an unsupported retention: "@ + (retention@
                    + "."@),
            ),
        },
{
    if !same_text(kind, "manual_note") && !same_text(kind, "pasted_text") && !same_text(kind, "url") {
        let tail = joined(kind, ".");
        return Err(
            AuraError::InvalidInput(
                joined("The archive contains a capture with an unsupported type: ", tail.as_str()),
            ),
        );
    }
    if !same_text(classification, "standard") && !same_text(classification, "sensitive") {
        let tail = joined(classification, ".");
        return Err(
            AuraError::InvalidInput(
                joined(
                    "The archive contains a capture with an unsupported classification: ",
                    tail.as_str(),
                ),
            ),
        );
    }
    match CaptureRetention::from_store(retention) {
        Ok(value) => Ok(value),
        Err(_) => {
            let tail = joined(retention, ".");
            Err(
                AuraError::InvalidInput(
                    joined(
                        "The archive contains a capture with an unsupported retention: ",
                        tail.as_str(),
                    ),
                ),
            )
        },
    }
}

/// Validates an imported decision record: a supported confidence and a
/// status of `confirmed` or `superseded`.
pub fn check_imported_decision(confidence: &str, status: &str) -> (r: Result<(), AuraError>)
    ensures
        !(confidence@ == "low"@ || confidence@ == "medium"@ || confidence@ == "high"@) ==> (r matches Err(
            e,
        ) && e.is_invalid_input_with(
            "The archive contains a decision with an unsupported confidence: "@ + (confidence@
                + "."@),
        )),
        (confidence@ == "low"@ || confidence@ == "medium"@ || confidence@ == "high"@) ==> if status@
            == "confirmed"@ || status@ == "superseded"@ {
            r is Ok
        } else {
            r matches Err(e) && e.is_invalid_input_with(
                "The archive contains a decision with an unsupported status: "@ + (status@ + "."@),
            )
        },
{
    if !same_text(confidence, "low") && !same_text(confidence, "medium") && !same_text(
        confidence,
        "high",
    ) {
        let tail = joined(confidence, ".");
        return Err(
            AuraError::InvalidInput(
                joined(
                    "The archive contains a decision with an unsupported confidence: ",
                    tail.as_str(),
                ),
            ),
        );
    }
    if !same_text(status, "confirmed") && !same_text(status, "superseded") {
        let tail = joined(status, ".");
        return Err(
            AuraError::InvalidInput(
                joined("The archive contains a decision with an unsupported status: ", tail.as_str()),
            ),
        );
    }
    Ok(())
}

/// The message an envelope of an unsupported format version is refused
/// with.
fn format_version_problem(version: i64) -> (r: Option<String>)
    ensures
        match version_problem(version) {
            Some(problem) => r matches Some(m) && m@ == problem,
            None => r is None,
        },
{
    if version > EXPORT_FORMAT_VERSION {
        let tail = joined(signed_decimal(version).as_str(), "; this build expects version 2.");
        Some(joined("Aura does not support export archives of format version ", tail.as_str()))
    } else if version < 1 {
        let tail = joined(signed_decimal(version).as_str(), ".");
        Some(joined("Aura does not support export archives of format version ", tail.as_str()))
    } else {
        None
    }
}

/// `a + (b + c)` begins with `a + b`.
proof fn lemma_prefix_of_joined(a: Seq<char>, b: Seq<char>, c: Seq<char>)
    ensures
        has_prefix(a + (b + c), a + b),
        has_prefix(a + c, a),
{
    assert((a + (b + c)).subrange(0, (a + b).len() as int) =~= a + b);
    assert((a + c).subrange(0, a.len() as int) =~= a);
}

} // verus!
