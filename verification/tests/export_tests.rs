use aura::application::export_service::{
    check_imported_capture, check_imported_decision, check_imported_exclusion,
    check_imported_project, check_imported_setting, check_record_counts, export_report,
    exported_capture_records, is_exported_capture, payload_text, record_counts, ArchiveWrite,
    ExportEnvelope, ExportService, PassphraseParams, PayloadRecords,
};
use aura::domain::capture::CaptureRetention;
use aura::domain::export::{ExportEvent, ExportRecordCounts, EXPORT_FORMAT_VERSION, PASSPHRASE_SEALING};
use aura::domain::project::AuraError;
use aura::security::key_vault::KeyVault;
use aura::security::passphrase::Passphrase;

const PAYLOAD: &str = "{\"projects\":[{\"id\":\"p1\",\"name\":\"Aura\"}],\"captures\":[],\"decisions\":[],\"exclusionRules\":[],\"settings\":[]}";

fn records() -> PayloadRecords {
    PayloadRecords {
        projects: vec!["{\"id\":\"p1\",\"name\":\"Aura\"}".to_string()],
        captures: vec![],
        decisions: vec![],
        exclusion_rules: vec![],
        settings: vec![],
    }
}

fn empty_records() -> PayloadRecords {
    PayloadRecords { projects: vec![], captures: vec![], decisions: vec![], exclusion_rules: vec![], settings: vec![] }
}

fn counts() -> ExportRecordCounts {
    ExportRecordCounts { projects: 1, captures: 0, decisions: 0, exclusion_rules: 0, settings: 0 }
}

fn vault(directory: &str) -> KeyVault {
    KeyVault::new(directory.to_string(), None).expect("vault").0
}

fn invalid_message(error: AuraError) -> String {
    match error {
        AuraError::InvalidInput(message) => message,
        other => panic!("expected an invalid-input error, got {other:?}"),
    }
}

#[test]
fn empty_workspace_produces_a_sealed_envelope_with_plaintext_manifest() {
    let vault = vault("/tmp/aura-export-a");
    let service = ExportService::new(&vault);
    let envelope = service
        .assemble_export(&empty_records())
        .expect("assemble");
    assert_eq!(envelope.sealing, "dpapi");
    let manifest = ExportService::envelope_manifest(&envelope).expect("read manifest");

    assert_eq!(manifest.format_version, EXPORT_FORMAT_VERSION);
    assert_eq!(manifest.record_counts.projects, 0);
    assert_eq!(manifest.record_counts.captures, 0);
    assert_eq!(manifest.record_counts.decisions, 0);
    assert_eq!(manifest.record_counts.exclusion_rules, 0);
    assert!(!manifest.exported_at.is_empty());
    assert!(!manifest.payload_checksum.is_empty());
    assert!(manifest.payload_sealed_length > 0);
}

#[test]
fn sealed_payload_cannot_be_read_without_the_bound_key() {
    let first = vault("/tmp/aura-export-b");
    let second = vault("/tmp/aura-export-c");
    let envelope = ExportService::new(&first).assemble_export(&records()).expect("assemble");
    let message = invalid_message(ExportService::new(&second).open_import(&envelope).unwrap_err());
    assert!(message.starts_with("Aura could not open that archive: its sealed contents failed authentication."));
    assert_eq!(ExportService::new(&first).open_import(&envelope).expect("same key"), PAYLOAD);
}

#[test]
fn tampered_checksum_is_rejected_by_the_import_path() {
    let vault = vault("/tmp/aura-export-d");
    let service = ExportService::new(&vault);
    let mut envelope = service.assemble_export(&records()).expect("assemble");
    envelope.payload_checksum = "0".repeat(64);
    assert_eq!(
        invalid_message(service.open_import(&envelope).unwrap_err()),
        "The exported archive is damaged: its contents no longer match the recorded checksum."
    );
}

#[test]
fn unsupported_format_version_is_rejected() {
    let vault = vault("/tmp/aura-export-e");
    let mut envelope = ExportService::new(&vault).assemble_export(&records()).expect("assemble");
    envelope.format_version = 99;
    assert_eq!(
        invalid_message(ExportService::envelope_manifest(&envelope).unwrap_err()),
        "Aura does not support export archives of format version 99; this build expects version 2."
    );
    envelope.format_version = 0;
    assert_eq!(
        invalid_message(ExportService::new(&vault).open_import(&envelope).unwrap_err()),
        "Aura does not support export archives of format version 0."
    );
}

#[test]
fn damaged_archive_that_fails_authentication_leaves_the_workspace_untouched() {
    let vault = vault("/tmp/aura-export-f");
    let service = ExportService::new(&vault);
    let mut envelope = service.assemble_export(&records()).expect("assemble");
    let mut hex = envelope.payload_sealed_hex.clone();
    let last = hex.pop().unwrap();
    hex.push(if last == '0' { '1' } else { '0' });
    envelope.payload_sealed_hex = hex;
    assert!(service.open_import(&envelope).is_err());
    envelope.payload_sealed_hex = "zz".to_string();
    assert!(invalid_message(service.open_import(&envelope).unwrap_err())
        .starts_with("The exported archive is damaged: its sealed payload is not valid hex. "));
}

#[test]
fn import_rejects_an_archive_whose_record_inventory_does_not_match_its_manifest() {
    let mut claimed = counts();
    claimed.projects = 5;
    assert_eq!(
        invalid_message(check_record_counts(counts(), claimed).unwrap_err()),
        "The exported archive is damaged: its record inventory no longer matches the manifest."
    );
    assert_eq!(check_record_counts(counts(), counts()).unwrap(), counts());
}

#[test]
fn passphrase_export_roundtrips_on_a_completely_fresh_installation() {
    let exporting = vault("/tmp/aura-export-g");
    let envelope = ExportService::new(&exporting)
        .assemble_passphrase_export(Passphrase::new("Portable-Archive-2024".into()), &records())
        .expect("assemble");
    assert_eq!(envelope.format_version, EXPORT_FORMAT_VERSION);
    assert_eq!(envelope.format_version, 2);
    assert_eq!(envelope.sealing, PASSPHRASE_SEALING);
    assert_eq!(envelope.passphrase_params, Some(PassphraseParams::owasp_defaults()));
    let manifest = ExportService::envelope_manifest(&envelope).expect("read manifest");
    assert_eq!(manifest.sealing, PASSPHRASE_SEALING);
    let fresh = vault("/tmp/aura-export-h");
    let mut service = ExportService::new(&fresh);
    service.set_passphrase(Some(Passphrase::new("Portable-Archive-2024".into())));
    assert_eq!(service.open_import(&envelope).expect("open"), PAYLOAD);
}

#[test]
fn passphrase_export_rejects_a_weak_passphrase() {
    let vault = vault("/tmp/aura-export-i");
    let error = ExportService::new(&vault)
        .assemble_passphrase_export(Passphrase::new("weak".into()), &records())
        .unwrap_err();
    assert_eq!(
        invalid_message(error),
        "Choose a stronger passphrase: at least 12 characters, or 8 characters mixing upper case, lower case, and digits."
    );
}

#[test]
fn passphrase_archive_requires_its_passphrase_to_restore() {
    let vault = vault("/tmp/aura-export-j");
    let envelope = ExportService::new(&vault)
        .assemble_passphrase_export(Passphrase::new("Portable-Archive-2024".into()), &records())
        .expect("assemble");
    assert_eq!(
        invalid_message(ExportService::new(&vault).open_import(&envelope).unwrap_err()),
        "That archive was sealed with a passphrase; the passphrase is required to open it."
    );
    let mut wrong = ExportService::new(&vault);
    wrong.set_passphrase(Some(Passphrase::new("Another-Passphrase-1".into())));
    assert!(invalid_message(wrong.open_import(&envelope).unwrap_err())
        .starts_with("Aura could not open that archive: its sealed contents failed authentication with the supplied passphrase."));
}

#[test]
fn passphrase_archive_survives_being_read_on_a_different_machine() {
    let first = vault("/tmp/aura-export-k");
    let envelope = ExportService::new(&first)
        .assemble_passphrase_export(Passphrase::new("Abcd1234".into()), &records())
        .expect("assemble");
    let other = vault("/tmp/aura-export-l");
    let mut service = ExportService::new(&other);
    service.set_passphrase(Some(Passphrase::new("Abcd1234".into())));
    assert_eq!(service.open_import(&envelope).expect("open"), PAYLOAD);
}

#[test]
fn version_one_dpapi_archive_still_opens() {
    let vault = vault("/tmp/aura-export-m");
    let envelope = ExportService::new(&vault).assemble_export(&records()).expect("assemble");
    let legacy = ExportEnvelope {
        format_version: 1,
        sealing: aura::application::export_service::default_sealing(),
        ..envelope
    };
    assert_eq!(ExportService::new(&vault).open_import(&legacy).expect("open"), PAYLOAD);
}

#[test]
fn imported_records_are_validated_before_they_are_written() {
    assert_eq!(check_imported_project("  Aura ", None).unwrap(), ("Aura".to_string(), "active"));
    assert_eq!(
        invalid_message(check_imported_project("   ", None).unwrap_err()),
        "The archive contains a project without a name."
    );
    assert_eq!(
        invalid_message(check_imported_project("Aura", Some("done")).unwrap_err()),
        "The archive contains a project with an unsupported status: done."
    );
    assert_eq!(check_imported_exclusion("domain", " example.com ").unwrap(), "example.com");
    assert_eq!(
        invalid_message(check_imported_exclusion("window", "x").unwrap_err()),
        "The archive contains an exclusion rule with an unsupported type: window."
    );
    assert!(check_imported_setting("privacy_mode", "paused").is_ok());
    assert_eq!(
        invalid_message(check_imported_setting("privacy_mode", "focused").unwrap_err()),
        "The archive contains an unsupported privacy mode: focused."
    );
    assert_eq!(
        invalid_message(check_imported_setting("theme", "dark").unwrap_err()),
        "The archive contains an unsupported workspace setting: theme."
    );
    assert!(check_imported_setting("default_capture_retention", "forever").is_err());
    assert_eq!(
        check_imported_capture("url", "standard", "until_deleted").unwrap(),
        CaptureRetention::UntilDeleted
    );
    assert_eq!(
        invalid_message(check_imported_capture("url", "public", "until_deleted").unwrap_err()),
        "The archive contains a capture with an unsupported classification: public."
    );
    assert!(check_imported_decision("high", "superseded").is_ok());
    assert_eq!(
        invalid_message(check_imported_decision("high", "draft").unwrap_err()),
        "The archive contains a decision with an unsupported status: draft."
    );
}

#[test]
fn format_versions_one_and_two_are_readable_and_later_ones_are_not() {
    let vault = vault("/tmp/aura-export-n");
    let envelope = ExportService::new(&vault).assemble_export(&records()).expect("assemble");
    assert_eq!(envelope.format_version, 2);
    for version in [1, 2] {
        let readable = ExportEnvelope { format_version: version, ..envelope.clone() };
        assert_eq!(ExportService::envelope_manifest(&readable).expect("manifest").format_version, version);
    }
    let later = ExportEnvelope { format_version: 3, ..envelope };
    assert_eq!(
        invalid_message(ExportService::envelope_manifest(&later).unwrap_err()),
        "Aura does not support export archives of format version 3; this build expects version 2."
    );
}

#[test]
fn deleted_captures_stay_out_of_exports() {
    assert!(is_exported_capture("active"));
    assert!(is_exported_capture("aged"));
    assert!(!is_exported_capture("deleted"));
}

#[test]
fn export_outcomes_are_recorded_and_reported() {
    let saved = export_report(ArchiveWrite::Saved("/tmp/a.aura".to_string()), false);
    assert_eq!(saved.event, ExportEvent::ExportCompleted);
    assert_eq!(saved.detail, "Aura exported its local workspace to /tmp/a.aura.");
    assert!(saved.refusal.is_none());
    let sealed = export_report(ArchiveWrite::Saved("/tmp/a.aura".to_string()), true);
    assert_eq!(sealed.detail, "Aura exported its local workspace, sealed with a passphrase, to /tmp/a.aura.");
    let failed = export_report(ArchiveWrite::Failed("disk full".to_string()), false);
    assert_eq!(failed.event, ExportEvent::ExportFailed);
    assert_eq!(failed.detail, "Aura could not write the archive: disk full.");
    assert_eq!(failed.refusal.as_deref(), Some("Aura could not write the export archive: disk full."));
    let cancelled = export_report(ArchiveWrite::Cancelled, true);
    assert_eq!(cancelled.event, ExportEvent::ExportFailed);
    assert_eq!(cancelled.detail, "The export destination was cancelled.");
    assert_eq!(
        cancelled.refusal.as_deref(),
        Some("The export was cancelled before Aura could save the archive.")
    );
}

#[test]
fn the_payload_frames_its_records_and_counts_them() {
    assert_eq!(payload_text(&records()), PAYLOAD);
    assert_eq!(record_counts(&records()), counts());
    assert_eq!(
        payload_text(&empty_records()),
        "{\"projects\":[],\"captures\":[],\"decisions\":[],\"exclusionRules\":[],\"settings\":[]}"
    );
    let two = PayloadRecords { settings: vec!["{\"key\":\"a\"}".into(), "{\"key\":\"b\"}".into()], ..empty_records() };
    assert!(payload_text(&two).ends_with("\"settings\":[{\"key\":\"a\"},{\"key\":\"b\"}]}"));
    assert_eq!(record_counts(&two).settings, 2);
    let vault = vault("/tmp/aura-export-o");
    let envelope = ExportService::new(&vault).assemble_export(&two).expect("assemble");
    assert_eq!(envelope.record_counts, record_counts(&two));
    assert_eq!(envelope.payload_checksum.len(), 64);
    assert_eq!(ExportService::new(&vault).open_import(&envelope).expect("open"), payload_text(&two));
}

#[test]
fn deleted_captures_are_dropped_from_the_payload_in_order() {
    let rows = vec![
        ("active".to_string(), "{\"id\":\"c1\"}".to_string()),
        ("deleted".to_string(), "{\"id\":\"c2\"}".to_string()),
        ("aged".to_string(), "{\"id\":\"c3\"}".to_string()),
    ];
    assert_eq!(
        exported_capture_records(rows),
        vec!["{\"id\":\"c1\"}".to_string(), "{\"id\":\"c3\"}".to_string()]
    );
}
