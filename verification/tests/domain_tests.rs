use aura::commands::{
    archive_file_name, authorize_intentional_marker, brain_transcript, parse_capture_kind,
    parse_claim_confidence,
};
use aura::domain::capture::CaptureKind;
use aura::domain::claim::ClaimConfidence;
use aura::domain::project::{AuraError, ProjectStatus};
use aura::domain::settings::{ExclusionKind, PrivacyMode};
use aura::application::project_service::parse_project_status;

#[test]
fn privacy_mode_serializes_to_supported_values() {
    let mode = PrivacyMode::ManualOnly;

    assert_eq!(mode.as_str(), "manual_only");
    assert_eq!(PrivacyMode::Paused.as_str(), "paused");
    assert_eq!(PrivacyMode::from_store("manual_only").expect("mode"), mode);
    assert_eq!(
        PrivacyMode::from_store("focused"),
        Err(AuraError::Storage(
            "Aura found an unsupported local privacy mode.".to_string()
        ))
    );
}

#[test]
fn exclusion_kind_roundtrips_through_the_store_format() {
    for kind in [
        ExclusionKind::Application,
        ExclusionKind::Domain,
        ExclusionKind::Project,
    ] {
        assert_eq!(
            ExclusionKind::from_store(kind.as_str()).expect("kind"),
            kind
        );
    }

    assert!(ExclusionKind::from_store("unknown").is_err());
}

#[test]
fn paused_privacy_mode_blocks_intentional_capture() {
    let result = authorize_intentional_marker("project-id".to_string(), &PrivacyMode::Paused);

    assert_eq!(
        result
            .expect_err("paused mode must reject capture")
            .message(),
        "Intentional capture is paused. Resume it before adding context."
    );
}

#[test]
fn manual_only_privacy_mode_authorizes_a_manual_marker() {
    let project_id =
        authorize_intentional_marker("project-id".to_string(), &PrivacyMode::ManualOnly)
            .expect("manual-only mode should permit intentional capture");

    assert_eq!(project_id, "project-id");
}

#[test]
fn renderer_choices_are_parsed_with_actionable_errors() {
    assert_eq!(parse_claim_confidence("high").unwrap(), ClaimConfidence::High);
    assert_eq!(
        parse_claim_confidence("certain").unwrap_err().message(),
        "Choose low, medium, or high confidence before saving a decision."
    );
    assert_eq!(parse_capture_kind("url").unwrap(), CaptureKind::Url);
    assert!(parse_capture_kind("screenshot").is_err());
    assert_eq!(parse_project_status(None).unwrap(), None);
    assert_eq!(parse_project_status(Some("paused".into())).unwrap(), Some(ProjectStatus::Paused));
    assert_eq!(
        parse_project_status(Some("done".into())).unwrap_err().message(),
        "Project status must be active, paused, or archived."
    );
}

#[test]
fn archive_names_and_brain_transcripts() {
    assert_eq!(
        archive_file_name("2024-05-01T10:20:30.123Z"),
        "aura-workspace-2024-05-01T10-20-30-123Z.aura"
    );
    assert_eq!(brain_transcript("  hi  ").unwrap(), "hi");
    assert_eq!(
        brain_transcript("   ").unwrap_err(),
        "Cortex needs something to reason about — type or dictate first."
    );
}

#[test]
fn stored_spellings_roundtrip() {
    for status in [ProjectStatus::Active, ProjectStatus::Paused, ProjectStatus::Archived] {
        assert_eq!(ProjectStatus::from_store(status.as_str()).unwrap(), status);
    }
    assert_eq!(ProjectStatus::Archived.display_name(), "Archived");
}
