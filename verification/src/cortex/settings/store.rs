//! The assistant settings document and its field-level updates.
//!
//! The document is the single source of assistant configuration. API keys
//! never appear in it as plaintext: they are sealed with the workspace key
//! and only the sealed storage form is kept. Reading and rewriting the file
//! happen around this module.
use crate::security::crypto::{spec_chacha20poly1305_open, AEAD_TAG_LENGTH};
use crate::security::key_vault::{
    sealed_format_problem, KeyVault, KeyVaultError, SealedValue, NONCE_LENGTH,
};
use crate::security::passphrase::raw_seals;
use crate::text::{
    is_blank, joined, path_join, joined_path, spec_utf8_error_text, trim_text, utf8_text,
};
use vstd::prelude::*;
use vstd::utf8::{decode_utf8, encode_utf8, encode_utf8_decode_utf8, encode_utf8_valid_utf8, valid_utf8};

verus! {

/// Shortest configurable context ageing window, in days.
pub const AGEING_WINDOW_MIN_DAYS: u32 = 7;

/// Longest configurable context ageing window, in days.
pub const AGEING_WINDOW_MAX_DAYS: u32 = 365;

/// Default context ageing window, in days.
pub const AGEING_WINDOW_DEFAULT_DAYS: u32 = 90;

/// File name of the settings document inside the data directory.
pub const SETTINGS_FILE_NAME: &'static str = "aura-settings.json";

/// The ollama host used until the user configures another.
pub const DEFAULT_OLLAMA_HOST: &'static str = "http://localhost:11434";

/// Which tier the brain resolves to at request time.
#[derive(Debug, Clone, Copy, PartialEq, Eq, Structural)]
pub enum BrainMode {
    /// Cloud when a key is configured, else local ollama when reachable,
    /// else the deterministic floor.
    Auto,
    /// On-device ollama, falling back to the floor.
    Local,
    /// The cloud provider, falling back to the floor.
    Cloud,
}

impl Default for BrainMode {
    fn default() -> (r: BrainMode)
        ensures
            r == BrainMode::Auto,
    {
        BrainMode::Auto
    }
}

/// Cloud reasoning and speech-to-text provider.
#[derive(Debug, Clone, Copy, PartialEq, Eq, Structural)]
pub enum CloudProvider {
    Groq,
    OpenAi,
}

impl Default for CloudProvider {
    fn default() -> (r: CloudProvider)
        ensures
            r == CloudProvider::Groq,
    {
        CloudProvider::Groq
    }
}

/// Speech-to-text resolution mode.
#[derive(Debug, Clone, Copy, PartialEq, Eq, Structural)]
pub enum SttMode {
    Auto,
    Local,
    Cloud,
}

impl Default for SttMode {
    fn default() -> (r: SttMode)
        ensures
            r == SttMode::Auto,
    {
        SttMode::Auto
    }
}

/// Whether spoken replies are enabled.
#[derive(Debug, Clone, Copy, PartialEq, Eq, Structural)]
pub enum VoiceReply {
    Off,
    On,
}

impl Default for VoiceReply {
    fn default() -> (r: VoiceReply)
        ensures
            r == VoiceReply::Off,
    {
        VoiceReply::Off
    }
}

/// A secret as the document holds it: the sealed storage form, or nothing.
#[derive(Debug, Clone, PartialEq, Eq)]
pub enum MaybeSealed {
    Sealed(Vec<u8>),
    Absent,
}

impl MaybeSealed {
    /// A well-formed sealed value is present.
    pub open spec fn is_present(self) -> bool {
        self matches MaybeSealed::Sealed(raw) && sealed_format_problem(raw@) is None
    }

    /// The sealed value, when one is present and well formed.
    pub fn as_sealed(&self) -> (r: Option<SealedValue>)
        ensures
            r is Some <==> self.is_present(),
    {
        match self {
            MaybeSealed::Sealed(raw) => match KeyVault::decode_sealed(raw.as_slice()) {
                Ok(sealed) => Some(sealed),
                Err(_) => None,
            },
            MaybeSealed::Absent => None,
        }
    }
}

impl Default for MaybeSealed {
    fn default() -> (r: MaybeSealed)
        ensures
            r is Absent,
    {
        MaybeSealed::Absent
    }
}

/// `secret` holds `plaintext` sealed with `key`.
pub open spec fn seals_secret(key: Seq<u8>, plaintext: Seq<char>, secret: MaybeSealed) -> bool {
    secret matches MaybeSealed::Sealed(raw) && raw_seals(key, encode_utf8(plaintext), raw@)
}

/// The assistant configuration document.
#[derive(Debug, Clone)]
pub struct AssistantSettings {
    pub brain_mode: BrainMode,
    pub cloud_provider: CloudProvider,
    /// Sealed Groq API key.
    pub groq_api_key: MaybeSealed,
    /// Sealed OpenAI API key.
    pub openai_api_key: MaybeSealed,
    pub ollama_host: String,
    pub stt_mode: SttMode,
    pub voice_reply: VoiceReply,
    /// Captures older than this many days fold into review; kept within
    /// [7, 365].
    pub ageing_window_days: u32,
    pub ageing_enabled: bool,
}

impl Default for AssistantSettings {
    /// Local-first and private: automatic tiers, no keys, voice replies
    /// off, a 90-day ageing window.
    fn default() -> (r: AssistantSettings)
        ensures
            r.brain_mode == BrainMode::Auto,
            r.cloud_provider == CloudProvider::Groq,
            r.groq_api_key is Absent,
            r.openai_api_key is Absent,
            r.ollama_host@ == DEFAULT_OLLAMA_HOST@,
            r.stt_mode == SttMode::Auto,
            r.voice_reply == VoiceReply::Off,
            r.ageing_window_days == AGEING_WINDOW_DEFAULT_DAYS,
            r.ageing_enabled,
    {
        AssistantSettings {
            brain_mode: BrainMode::Auto,
            cloud_provider: CloudProvider::Groq,
            groq_api_key: MaybeSealed::Absent,
            openai_api_key: MaybeSealed::Absent,
            ollama_host: String::from_str(DEFAULT_OLLAMA_HOST),
            stt_mode: SttMode::Auto,
            voice_reply: VoiceReply::Off,
            ageing_window_days: AGEING_WINDOW_DEFAULT_DAYS,
            ageing_enabled: true,
        }
    }
}

/// The ageing window clamped into [7, 365] days.
pub open spec fn bounded_window(days: u32) -> u32 {
    if days < AGEING_WINDOW_MIN_DAYS {
        AGEING_WINDOW_MIN_DAYS
    } else if days > AGEING_WINDOW_MAX_DAYS {
        AGEING_WINDOW_MAX_DAYS
    } else {
        days
    }
}

impl AssistantSettings {
    /// A key for the configured provider is present (presence, not
    /// validity: the provider decides that).
    pub open spec fn spec_cloud_configured(self) -> bool {
        match self.cloud_provider {
            CloudProvider::Groq => self.groq_api_key.is_present(),
            CloudProvider::OpenAi => self.openai_api_key.is_present(),
        }
    }

    /// The sealed Groq key bytes, if present.
    pub fn groq_key(&self) -> (r: Option<&Vec<u8>>)
        ensures
            match self.groq_api_key {
                MaybeSealed::Sealed(raw) => r == Some(&raw),
                MaybeSealed::Absent => r is None,
            },
    {
        match &self.groq_api_key {
            MaybeSealed::Sealed(raw) => Some(raw),
            MaybeSealed::Absent => None,
        }
    }

    /// The sealed OpenAI key bytes, if present.
    pub fn openai_key(&self) -> (r: Option<&Vec<u8>>)
        ensures
            match self.openai_api_key {
                MaybeSealed::Sealed(raw) => r == Some(&raw),
                MaybeSealed::Absent => r is None,
            },
    {
        match &self.openai_api_key {
            MaybeSealed::Sealed(raw) => Some(raw),
            MaybeSealed::Absent => None,
        }
    }

    /// True when a cloud tier can run: a well-formed sealed key for the
    /// configured provider is present.
    pub fn cloud_configured(&self) -> (r: bool)
        ensures
            r == self.spec_cloud_configured(),
    {
        match self.cloud_provider {
            CloudProvider::Groq => self.groq_api_key.as_sealed().is_some(),
            CloudProvider::OpenAi => self.openai_api_key.as_sealed().is_some(),
        }
    }

    /// The ageing window, clamped into [7, 365] days even when the document
    /// was edited by hand.
    pub fn ageing_window_days_bounded(&self) -> (r: u32)
        ensures
            r == bounded_window(self.ageing_window_days),
            AGEING_WINDOW_MIN_DAYS <= r <= AGEING_WINDOW_MAX_DAYS,
    {
        if self.ageing_window_days < AGEING_WINDOW_MIN_DAYS {
            AGEING_WINDOW_MIN_DAYS
        } else if self.ageing_window_days > AGEING_WINDOW_MAX_DAYS {
            AGEING_WINDOW_MAX_DAYS
        } else {
            self.ageing_window_days
        }
    }
}

/// One field-level settings mutation. Key fields carry a new key only; no
/// operation returns a key back.
#[derive(Debug, Clone)]
pub enum SettingField {
    BrainMode(BrainMode),
    CloudProvider(CloudProvider),
    GroqApiKey(String),
    OpenAiApiKey(String),
    OllamaHost(String),
    SttMode(SttMode),
    VoiceReply(VoiceReply),
    AgeingWindowDays(u32),
    AgeingEnabled(bool),
}

/// Errors raised by the settings store.
#[derive(Debug)]
pub enum SettingsError {
    Vault(KeyVaultError),
    Serialization(String),
    Storage(String),
    Validation(String),
}

impl SettingsError {
    /// The displayed text of the error.
    pub open spec fn spec_message(self) -> Seq<char> {
        match self {
            SettingsError::Vault(e) => e.spec_message(),
            SettingsError::Serialization(d) => "settings format error: "@ + d@,
            SettingsError::Storage(d) => "settings storage error: "@ + d@,
            SettingsError::Validation(d) => "settings rejected: "@ + d@,
        }
    }

    /// The displayed text of the error.
    pub fn message(&self) -> (r: String)
        ensures
            r@ == self.spec_message(),
    {
        match self {
            SettingsError::Vault(e) => e.message(),
            SettingsError::Serialization(d) => joined("settings format error: ", d.as_str()),
            SettingsError::Storage(d) => joined("settings storage error: ", d.as_str()),
            SettingsError::Validation(d) => joined("settings rejected: ", d.as_str()),
        }
    }
}

impl From<KeyVaultError> for SettingsError {
    fn from(error: KeyVaultError) -> (r: Self) {
        SettingsError::Vault(error)
    }
}

impl vstd::std_specs::convert::FromSpecImpl<KeyVaultError> for SettingsError {
    open spec fn obeys_from_spec() -> bool {
        true
    }

    open spec fn from_spec(error: KeyVaultError) -> Self {
        SettingsError::Vault(error)
    }
}

/// The position of the document field an update names: brain mode,
/// cloud provider, Groq key, OpenAI key, ollama host, STT mode, voice
/// reply, ageing window, ageing switch.
pub open spec fn field_position(field: SettingField) -> int {
    match field {
        SettingField::BrainMode(_) => 0,
        SettingField::CloudProvider(_) => 1,
        SettingField::GroqApiKey(_) => 2,
        SettingField::OpenAiApiKey(_) => 3,
        SettingField::OllamaHost(_) => 4,
        SettingField::SttMode(_) => 5,
        SettingField::VoiceReply(_) => 6,
        SettingField::AgeingWindowDays(_) => 7,
        SettingField::AgeingEnabled(_) => 8,
    }
}

/// `after` holds every field of `before` except, possibly, the one at
/// `position`.
pub open spec fn same_except(before: AssistantSettings, after: AssistantSettings, position: int) -> bool {
    &&& position != 0 ==> after.brain_mode == before.brain_mode
    &&& position != 1 ==> after.cloud_provider == before.cloud_provider
    &&& position != 2 ==> after.groq_api_key == before.groq_api_key
    &&& position != 3 ==> after.openai_api_key == before.openai_api_key
    &&& position != 4 ==> after.ollama_host@ == before.ollama_host@
    &&& position != 5 ==> after.stt_mode == before.stt_mode
    &&& position != 6 ==> after.voice_reply == before.voice_reply
    &&& position != 7 ==> after.ageing_window_days == before.ageing_window_days
    &&& position != 8 ==> after.ageing_enabled == before.ageing_enabled
}

/// `after` holds the value a plain (non-key) update asks for; key updates
/// are sealed, so nothing is said of them here.
pub open spec fn holds_requested_value(field: SettingField, after: AssistantSettings) -> bool {
    match field {
        SettingField::BrainMode(m) => after.brain_mode == m,
        SettingField::CloudProvider(p) => after.cloud_provider == p,
        SettingField::GroqApiKey(_) => true,
        SettingField::OpenAiApiKey(_) => true,
        SettingField::OllamaHost(h) => after.ollama_host@ == h@,
        SettingField::SttMode(m) => after.stt_mode == m,
        SettingField::VoiceReply(v) => after.voice_reply == v,
        SettingField::AgeingWindowDays(d) => after.ageing_window_days == d,
        SettingField::AgeingEnabled(e) => after.ageing_enabled == e,
    }
}

/// What the document holds after one field update, before any sealing:
/// the same document with that one field replaced.
pub open spec fn with_field(settings: AssistantSettings, field: SettingField) -> AssistantSettings {
    match field {
        SettingField::BrainMode(v) => AssistantSettings { brain_mode: v, ..settings },
        SettingField::CloudProvider(v) => AssistantSettings { cloud_provider: v, ..settings },
        SettingField::GroqApiKey(_) => settings,
        SettingField::OpenAiApiKey(_) => settings,
        SettingField::OllamaHost(v) => AssistantSettings { ollama_host: v, ..settings },
        SettingField::SttMode(v) => AssistantSettings { stt_mode: v, ..settings },
        SettingField::VoiceReply(v) => AssistantSettings { voice_reply: v, ..settings },
        SettingField::AgeingWindowDays(v) => AssistantSettings { ageing_window_days: v, ..settings },
        SettingField::AgeingEnabled(v) => AssistantSettings { ageing_enabled: v, ..settings },
    }
}

/// An update changes the field it names and nothing else: applying a field
/// update to a document gives the requested value in that field and keeps
/// every other field as it was.
pub proof fn lemma_update_changes_only_the_named_field(settings: AssistantSettings, field: SettingField)
    ensures
        holds_requested_value(field, with_field(settings, field)),
        same_except(settings, with_field(settings, field), field_position(field)),
{
}

/// A masked view of the document: key presence flags, never key material.
#[derive(Debug, Clone)]
pub struct SettingsSnapshot {
    pub brain_mode: BrainMode,
    pub cloud_provider: CloudProvider,
    pub groq_key_present: bool,
    pub openai_key_present: bool,
    pub ollama_host: String,
    pub stt_mode: SttMode,
    pub voice_reply: VoiceReply,
    pub ageing_window_days: u32,
    pub ageing_enabled: bool,
}

/// The settings store: seals and opens secrets with the workspace key and
/// applies field updates to the document.
pub struct SettingsStore {
    vault: KeyVault,
    settings_path: String,
}

impl Clone for SettingsStore {
    fn clone(&self) -> (r: SettingsStore)
        ensures
            r.vault_key() == self.vault_key(),
            r.spec_settings_path() == self.spec_settings_path(),
    {
        SettingsStore { vault: self.vault.clone(), settings_path: self.settings_path.clone() }
    }
}

impl SettingsStore {
    /// The key secrets are sealed with.
    pub closed spec fn vault_key(&self) -> Seq<u8> {
        self.vault.spec_key()
    }

    /// Path of the settings document.
    pub closed spec fn spec_settings_path(&self) -> Seq<char> {
        self.settings_path@
    }

    /// A store over the vault's data directory; the document is
    /// `aura-settings.json` there.
    pub fn new(vault: KeyVault) -> (r: SettingsStore)
        ensures
            r.vault_key() == vault.spec_key(),
            r.spec_settings_path() == joined_path(vault.spec_data_directory(), SETTINGS_FILE_NAME@),
    {
        let settings_path = path_join(vault.data_directory().as_str(), SETTINGS_FILE_NAME);
        SettingsStore { vault, settings_path }
    }

    /// The document as loaded: the defaults when there is none yet, else
    /// the stored document with its ageing window clamped.
    pub fn loaded(document: Option<AssistantSettings>) -> (r: AssistantSettings)
        ensures
            document is None ==> (r.groq_api_key is Absent),
            document is None ==> (r.openai_api_key is Absent),
            document is None ==> r.brain_mode == BrainMode::Auto && r.ageing_window_days
                == AGEING_WINDOW_DEFAULT_DAYS,
            document matches Some(d) ==> r == (AssistantSettings {
                ageing_window_days: bounded_window(d.ageing_window_days),
                ..d
            }),
    {
        match document {
            None => AssistantSettings::default(),
            Some(settings) => {
                let days = settings.ageing_window_days_bounded();
                AssistantSettings { ageing_window_days: days, ..settings }
            },
        }
    }

    /// Seals a secret; a blank secret clears the field instead.
    fn seal(&self, plaintext: &str) -> (r: Result<MaybeSealed, SettingsError>)
        requires
            encode_utf8(plaintext@).len() + AEAD_TAG_LENGTH <= usize::MAX,
        ensures
            is_blank(plaintext@) ==> r matches Ok(MaybeSealed::Absent),
            !is_blank(plaintext@) ==> match r {
                Ok(secret) => seals_secret(self.vault_key(), plaintext@, secret),
                Err(e) => e matches SettingsError::Vault(v) && (v is Entropy || (v.is_sealed_value_with(
                    "aead::Error"@,
                ) && encode_utf8(plaintext@).len() / 64 >= 0xFFFF_FFFF)),
            },
    {
        let trimmed = trim_text(plaintext);
        if trimmed.as_str().is_empty() {
            return Ok(MaybeSealed::Absent);
        }
        let sealed = match self.vault.seal(plaintext.as_bytes()) {
            Ok(sealed) => sealed,
            Err(error) => {
                return Err(SettingsError::Vault(error));
            },
        };
        let raw = KeyVault::encode_sealed(&sealed);
        proof {
            assert(raw@.subrange(1, 1 + NONCE_LENGTH) =~= sealed.nonce@);
            assert(raw@.subrange(1 + NONCE_LENGTH, raw@.len() as int) =~= sealed.ciphertext@);
        }
        Ok(MaybeSealed::Sealed(raw))
    }

    /// Applies one field update to the loaded document. Key fields are
    /// sealed in place (a blank key clears the field); an ageing window
    /// outside [7, 365] days is refused. Every other field is kept.
    pub fn update(&self, settings: AssistantSettings, field: SettingField) -> (r: Result<
        AssistantSettings,
        SettingsError,
    >)
        requires
            field matches SettingField::GroqApiKey(k) ==> encode_utf8(k@).len() + AEAD_TAG_LENGTH
                <= usize::MAX,
            field matches SettingField::OpenAiApiKey(k) ==> encode_utf8(k@).len()
                + AEAD_TAG_LENGTH <= usize::MAX,
        ensures
            match field {
                SettingField::GroqApiKey(k) => if is_blank(k@) {
                    r matches Ok(s) && s == (AssistantSettings {
                        groq_api_key: MaybeSealed::Absent,
                        ..settings
                    })
                } else {
                    match r {
                        Ok(s) => s == (AssistantSettings { groq_api_key: s.groq_api_key, ..settings })
                            && seals_secret(self.vault_key(), k@, s.groq_api_key),
                        Err(e) => e is Vault,
                    }
                },
                SettingField::OpenAiApiKey(k) => if is_blank(k@) {
                    r matches Ok(s) && s == (AssistantSettings {
                        openai_api_key: MaybeSealed::Absent,
                        ..settings
                    })
                } else {
                    match r {
                        Ok(s) => s == (AssistantSettings {
                            openai_api_key: s.openai_api_key,
                            ..settings
                        }) && seals_secret(self.vault_key(), k@, s.openai_api_key),
                        Err(e) => e is Vault,
                    }
                },
                SettingField::AgeingWindowDays(days) => if AGEING_WINDOW_MIN_DAYS <= days
                    <= AGEING_WINDOW_MAX_DAYS {
                    r matches Ok(s) && s == with_field(settings, field)
                } else {
                    r matches Err(SettingsError::Validation(m)) && m@
                        == "the ageing window must sit between 7 and 365 days"@
                },
                _ => r matches Ok(s) && s == with_field(settings, field),
            },
            r matches Ok(t) ==> holds_requested_value(field, t) && same_except(
                settings,
                t,
                field_position(field),
            ),
    {
        proof {
            lemma_update_changes_only_the_named_field(settings, field);
        }
        match field {
            SettingField::BrainMode(value) => Ok(AssistantSettings { brain_mode: value, ..settings }),
            SettingField::CloudProvider(value) => Ok(
                AssistantSettings { cloud_provider: value, ..settings },
            ),
            SettingField::GroqApiKey(plaintext) => {
                let sealed = self.seal(plaintext.as_str())?;
                Ok(AssistantSettings { groq_api_key: sealed, ..settings })
            },
            SettingField::OpenAiApiKey(plaintext) => {
                let sealed = self.seal(plaintext.as_str())?;
                Ok(AssistantSettings { openai_api_key: sealed, ..settings })
            },
            SettingField::OllamaHost(value) => Ok(AssistantSettings { ollama_host: value, ..settings }),
            SettingField::SttMode(value) => Ok(AssistantSettings { stt_mode: value, ..settings }),
            SettingField::VoiceReply(value) => Ok(AssistantSettings { voice_reply: value, ..settings }),
            SettingField::AgeingWindowDays(days) => {
                if days < AGEING_WINDOW_MIN_DAYS || days > AGEING_WINDOW_MAX_DAYS {
                    return Err(
                        SettingsError::Validation(
                            String::from_str("the ageing window must sit between 7 and 365 days"),
                        ),
                    );
                }
                Ok(AssistantSettings { ageing_window_days: days, ..settings })
            },
            SettingField::AgeingEnabled(value) => Ok(
                AssistantSettings { ageing_enabled: value, ..settings },
            ),
        }
    }

    /// The masked view of a loaded document.
    pub fn snapshot(&self, settings: &AssistantSettings) -> (r: SettingsSnapshot)
        ensures
            r.brain_mode == settings.brain_mode,
            r.cloud_provider == settings.cloud_provider,
            r.groq_key_present == settings.groq_api_key.is_present(),
            r.openai_key_present == settings.openai_api_key.is_present(),
            r.ollama_host@ == settings.ollama_host@,
            r.stt_mode == settings.stt_mode,
            r.voice_reply == settings.voice_reply,
            r.ageing_window_days == bounded_window(settings.ageing_window_days),
            r.ageing_enabled == settings.ageing_enabled,
    {
        SettingsSnapshot {
            brain_mode: settings.brain_mode,
            cloud_provider: settings.cloud_provider,
            groq_key_present: settings.groq_api_key.as_sealed().is_some(),
            openai_key_present: settings.openai_api_key.as_sealed().is_some(),
            ollama_host: settings.ollama_host.clone(),
            stt_mode: settings.stt_mode,
            voice_reply: settings.voice_reply,
            ageing_window_days: settings.ageing_window_days_bounded(),
            ageing_enabled: settings.ageing_enabled,
        }
    }

    /// Opens a sealed secret for an in-process consumer. Every secret this
    /// store sealed opens to the text it was sealed from.
    pub fn open_secret(&self, sealed: Option<&Vec<u8>>) -> (r: Result<Option<String>, SettingsError>)
        ensures
            match sealed {
                None => r matches Ok(None),
                Some(raw) => match sealed_format_problem(raw@) {
                    Some(problem) => r matches Err(SettingsError::Vault(e))
                        && e.is_sealed_value_with(problem),
                    None => match spec_chacha20poly1305_open(
                        self.vault_key(),
                        raw@.subrange(1, 1 + NONCE_LENGTH),
                        raw@.subrange(1 + NONCE_LENGTH, raw@.len() as int),
                    ) {
                        None => r matches Err(SettingsError::Vault(e)) && e.is_sealed_value_with(
                            "sealed value failed authentication; the ciphertext may be tampered or bound to a different key"@,
                        ),
                        Some(bytes) => if valid_utf8(bytes) {
                            r matches Ok(Some(s)) && s@ == decode_utf8(bytes)
                        } else {
                            r matches Err(SettingsError::Serialization(m)) && m@
                                == spec_utf8_error_text(bytes)
                        },
                    },
                },
            },
            sealed matches Some(raw) ==> match opened_secret(self.vault_key(), raw@) {
                Some(text) => r matches Ok(Some(s)) && s@ == text,
                None => r is Err,
            },
            sealed matches Some(raw) ==> forall|p: Seq<char>|
                #![trigger raw_seals(self.vault_key(), encode_utf8(p), raw@)]
                raw_seals(self.vault_key(), encode_utf8(p), raw@) ==> (r matches Ok(Some(s)) && s@
                    == p),
    {
        match sealed {
            None => Ok(None),
            Some(raw) => {
                let envelope = match KeyVault::decode_sealed(raw.as_slice()) {
                    Ok(envelope) => envelope,
                    Err(error) => {
                        proof {
                            assert(sealed_format_problem(raw@) is Some);
                            assert forall|p: Seq<char>|
                                #![trigger raw_seals(self.vault_key(), encode_utf8(p), raw@)]
                                raw_seals(self.vault_key(), encode_utf8(p), raw@) implies false by {}
                        }
                        return Err(SettingsError::Vault(error));
                    },
                };
                let bytes = match self.vault.open(&envelope) {
                    Ok(bytes) => bytes,
                    Err(error) => {
                        proof {
                            assert forall|p: Seq<char>|
                                #![trigger raw_seals(self.vault_key(), encode_utf8(p), raw@)]
                                raw_seals(self.vault_key(), encode_utf8(p), raw@) implies false by {
                                assert(self.vault.seals(encode_utf8(p), envelope));
                            }
                        }
                        return Err(SettingsError::Vault(error));
                    },
                };
                let ghost opened = bytes@;
                proof {
                    assert forall|p: Seq<char>|
                        #![trigger raw_seals(self.vault_key(), encode_utf8(p), raw@)]
                        raw_seals(self.vault_key(), encode_utf8(p), raw@) implies opened
                        == encode_utf8(p) && valid_utf8(opened) && decode_utf8(opened) == p by {
                        assert(self.vault.seals(encode_utf8(p), envelope));
                        encode_utf8_valid_utf8(p);
                        encode_utf8_decode_utf8(p);
                    }
                }
                match utf8_text(bytes) {
                    Ok(text) => Ok(Some(text)),
                    Err(detail) => Err(SettingsError::Serialization(detail)),
                }
            },
        }
    }

    /// Path of the settings document.
    pub fn settings_path(&self) -> (r: &String)
        ensures
            r@ == self.spec_settings_path(),
    {
        &self.settings_path
    }
}

/// The text a sealed secret opens to with the workspace key `key`, if it
/// opens to text at all.
pub open spec fn opened_secret(key: Seq<u8>, raw: Seq<u8>) -> Option<Seq<char>> {
    match sealed_format_problem(raw) {
        Some(_) => None,
        None => match spec_chacha20poly1305_open(
            key,
            raw.subrange(1, 1 + NONCE_LENGTH),
            raw.subrange(1 + NONCE_LENGTH, raw.len() as int),
        ) {
            None => None,
            Some(bytes) => if valid_utf8(bytes) {
                Some(decode_utf8(bytes))
            } else {
                None
            },
        },
    }
}

/// The sealed key of the configured cloud provider.
pub open spec fn provider_secret(settings: AssistantSettings) -> MaybeSealed {
    match settings.cloud_provider {
        CloudProvider::Groq => settings.groq_api_key,
        CloudProvider::OpenAi => settings.openai_api_key,
    }
}

} // verus!
