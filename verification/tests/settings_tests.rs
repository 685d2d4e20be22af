use aura::cortex::settings::store::{
    AssistantSettings, BrainMode, CloudProvider, MaybeSealed, SettingField, SettingsError,
    SettingsStore, SttMode, VoiceReply, AGEING_WINDOW_MAX_DAYS,
};
use aura::security::key_vault::{KeyVault, KeyVaultError};

fn store() -> SettingsStore {
    let (vault, _blob) = KeyVault::new("/tmp/aura-settings".to_string(), None).unwrap();
    SettingsStore::new(vault)
}

#[test]
fn defaults_are_local_first_and_privacy_preserving() {
    let defaults = AssistantSettings::default();
    assert_eq!(defaults.brain_mode, BrainMode::Auto);
    assert_eq!(defaults.stt_mode, SttMode::Auto);
    assert_eq!(defaults.voice_reply, VoiceReply::Off);
    assert!(!defaults.cloud_configured());
}

#[test]
fn ageing_window_clamps_hand_edited_extremes() {
    let mut settings = AssistantSettings::default();
    settings.ageing_window_days = 9_999;
    let loaded = SettingsStore::loaded(Some(settings));
    assert_eq!(loaded.ageing_window_days_bounded(), AGEING_WINDOW_MAX_DAYS);
    assert_eq!(loaded.ageing_window_days, AGEING_WINDOW_MAX_DAYS);
}

#[test]
fn out_of_range_ageing_window_is_rejected_on_update() {
    let store = store();
    let result = store.update(AssistantSettings::default(), SettingField::AgeingWindowDays(3));
    assert!(result.is_err());
    match result {
        Err(SettingsError::Validation(message)) => {
            assert_eq!(message, "the ageing window must sit between 7 and 365 days")
        }
        _ => panic!("an out-of-range window is a validation error"),
    }
}

#[test]
fn secret_field_roundtrips_sealed_and_is_never_readable_back() {
    let store = store();
    let settings = store
        .update(AssistantSettings::default(), SettingField::GroqApiKey("gsk_test_secret".into()))
        .unwrap();

    let snapshot = store.snapshot(&settings);
    assert!(snapshot.groq_key_present);
    match &settings.groq_api_key {
        MaybeSealed::Sealed(raw) => {
            assert!(!raw.windows(b"gsk_test_secret".len()).any(|w| w == b"gsk_test_secret"))
        }
        MaybeSealed::Absent => panic!("the key must be sealed in place"),
    }

    let opened = store.open_secret(settings.groq_key()).unwrap();
    assert_eq!(opened, Some("gsk_test_secret".to_string()));
}

#[test]
fn empty_key_clears_the_secret() {
    let store = store();
    let settings = store
        .update(AssistantSettings::default(), SettingField::OpenAiApiKey("sk_test".into()))
        .unwrap();
    assert!(store.snapshot(&settings).openai_key_present);

    let settings = store.update(settings, SettingField::OpenAiApiKey(String::new())).unwrap();
    assert!(!store.snapshot(&settings).openai_key_present);
}

#[test]
fn snapshot_hides_cloud_provider_key_when_absent() {
    let store = store();
    let mut settings = AssistantSettings::default();
    settings.cloud_provider = CloudProvider::OpenAi;
    let snapshot = store.snapshot(&settings);
    assert_eq!(snapshot.cloud_provider, CloudProvider::OpenAi);
    assert!(!snapshot.openai_key_present);
}

#[test]
fn settings_document_lives_in_the_vault_directory() {
    let store = store();
    assert_eq!(store.settings_path(), "/tmp/aura-settings/aura-settings.json");
}

#[test]
fn configured_cloud_key_makes_the_cloud_tier_available() {
    let store = store();
    let settings = store
        .update(AssistantSettings::default(), SettingField::GroqApiKey("gsk_live".into()))
        .unwrap();
    assert!(settings.cloud_configured());
    let settings = store.update(settings, SettingField::CloudProvider(CloudProvider::OpenAi)).unwrap();
    assert!(!settings.cloud_configured());
}

#[test]
fn a_secret_sealed_by_another_vault_does_not_open() {
    let store = store();
    let other = self::store();
    let settings = store
        .update(AssistantSettings::default(), SettingField::GroqApiKey("gsk".into()))
        .unwrap();
    assert!(other.open_secret(settings.groq_key()).is_err());
    assert_eq!(other.open_secret(None).unwrap(), None);
}

#[test]
fn ageing_window_within_bounds_is_accepted() {
    let store = store();
    let settings = store.update(AssistantSettings::default(), SettingField::AgeingWindowDays(7)).unwrap();
    assert_eq!(settings.ageing_window_days, 7);
    let mut low = AssistantSettings::default();
    low.ageing_window_days = 1;
    assert_eq!(low.ageing_window_days_bounded(), 7);
}

#[test]
fn vault_errors_become_settings_errors_with_the_same_text() {
    let vault_error = KeyVaultError::Storage("disk full".to_string());
    let settings_error = SettingsError::from(KeyVaultError::Storage("disk full".to_string()));
    assert!(matches!(settings_error, SettingsError::Vault(KeyVaultError::Storage(_))));
    assert_eq!(settings_error.message(), vault_error.message());
}
