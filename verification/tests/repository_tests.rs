use aura::db::migrations::{migration_failure, pending_migrations, Migration};
use aura::db::repositories::captures::{
    capture_activity_detail, capture_destination, is_safe_url, prepare_capture,
    transition_outcome, CaptureLifecycleAction, CreateCapture,
};
use aura::db::repositories::claims::{
    check_supersede_link, decision_activity, prepare_decision, source_labels, superseded_version,
    supersede_target, CreateDecision,
};
use aura::db::repositories::projects::{
    archive_decision, check_context_marker, merge_project_update, prepare_project, CreateProject,
    UpdateProject,
};
use aura::db::repositories::{optional_text, required_text};
use aura::db::{exclusion_rule_from_row, prepare_exclusion_rule, privacy_preferences_from};
use aura::domain::capture::{CaptureClassification, CaptureKind, CaptureRetention};
use aura::domain::claim::ClaimConfidence;
use aura::domain::project::{AuraError, ProjectStatus};
use aura::domain::retention::LifecycleState;
use aura::domain::settings::{ExclusionKind, PrivacyMode};

fn message(error: AuraError) -> String {
    error.message()
}

#[test]
fn required_and_optional_text_are_trimmed_and_bounded() {
    assert_eq!(required_text("Project name", "  Aura  ", 120).unwrap(), "Aura");
    assert_eq!(
        message(required_text("Project name", "   ", 120).unwrap_err()),
        "Project name is required before Aura can save it locally."
    );
    assert_eq!(
        message(required_text("Decision", &"x".repeat(161), 160).unwrap_err()),
        "Decision must be 160 characters or fewer."
    );
    assert_eq!(optional_text(Some("  ".into())), None);
    assert_eq!(optional_text(Some(" goal ".into())), Some("goal".to_string()));
}

#[test]
fn projects_are_created_active_and_archived_ones_stay_unchanged() {
    let project = prepare_project(CreateProject {
        name: " Aura ".into(),
        goal: Some(" ship ".into()),
        current_task: Some("  ".into()),
        next_step: None,
    })
    .unwrap();
    assert_eq!(project.name, "Aura");
    assert_eq!(project.goal, Some("ship".to_string()));
    assert_eq!(project.current_task, None);
    assert_eq!(project.status, ProjectStatus::Active);
    assert_eq!(project.id.len(), 36);

    let update = UpdateProject {
        name: None,
        goal: Some("".into()),
        status: Some(ProjectStatus::Paused),
        current_task: None,
        blocker: Some("waiting".into()),
        next_step: None,
    };
    let updated = merge_project_update(Some(project.clone()), update.clone()).unwrap();
    assert_eq!(updated.name, "Aura");
    assert_eq!(updated.goal, None);
    assert_eq!(updated.status, ProjectStatus::Paused);
    assert_eq!(updated.blocker, Some("waiting".to_string()));

    let mut archived = project.clone();
    archived.status = ProjectStatus::Archived;
    assert_eq!(
        message(merge_project_update(Some(archived.clone()), update.clone()).unwrap_err()),
        "Archived projects cannot be changed. Restore support is not available in Aura V0."
    );
    assert_eq!(archive_decision(Some(&archived)).unwrap(), false);
    assert_eq!(archive_decision(Some(&project)).unwrap(), true);
    assert!(matches!(archive_decision(None), Err(AuraError::NotFound(_))));
    assert_eq!(
        message(check_context_marker(Some(&archived)).unwrap_err()),
        "Aura cannot add context to an archived project."
    );
    assert!(matches!(merge_project_update(None, update), Err(AuraError::NotFound(_))));
}

#[test]
fn captures_go_only_to_open_projects_and_urls_must_be_http() {
    let request = CreateCapture {
        project_id: "p1".into(),
        kind: CaptureKind::Url,
        label: " Spec ".into(),
        content: " HTTPS://example.com ".into(),
        classification: CaptureClassification::Standard,
        retention: CaptureRetention::ReviewIn30Days,
    };
    let record = prepare_capture(request.clone(), Some("paused")).unwrap();
    assert_eq!(record.label, "Spec");
    assert_eq!(record.content, "HTTPS://example.com");
    assert_eq!(
        capture_activity_detail(&record),
        "URL capture “Spec” was saved with standard classification and review_in_30_days retention."
    );
    assert_eq!(
        message(prepare_capture(request.clone(), Some("archived")).unwrap_err()),
        "Aura cannot save a capture to a archived project."
    );
    assert!(matches!(capture_destination(None), Err(AuraError::NotFound(_))));
    let mut ftp = request;
    ftp.content = "ftp://example.com".into();
    assert_eq!(
        message(prepare_capture(ftp, Some("active")).unwrap_err()),
        "A URL capture must begin with http:// or https://."
    );
    assert!(is_safe_url("http://a"));
    assert!(!is_safe_url("javascript:alert(1)"));
}

#[test]
fn lifecycle_transitions_refuse_the_wrong_state() {
    assert_eq!(CaptureLifecycleAction::Keep.from_state(), LifecycleState::Aged);
    assert_eq!(CaptureLifecycleAction::Delete.to_state(), LifecycleState::Deleted);
    assert_eq!(
        message(transition_outcome(CaptureLifecycleAction::Keep, 0, None).unwrap_err()),
        "Aura could not keep that capture: it is not in the review state right now."
    );
    assert!(message(transition_outcome(CaptureLifecycleAction::Delete, 0, None).unwrap_err())
        .starts_with("Deleting this capture is not allowed right now"));
    assert!(matches!(
        transition_outcome(CaptureLifecycleAction::Age, 1, None),
        Err(AuraError::NotFound(_))
    ));
}

#[test]
fn decisions_need_sources_and_only_current_versions_are_corrected() {
    assert_eq!(
        message(source_labels(vec![]).unwrap_err()),
        "Add at least one source or basis for this decision."
    );
    assert_eq!(
        message(source_labels(vec!["s".to_string(); 13]).unwrap_err()),
        "A decision can include at most 12 local source references."
    );
    let claim = prepare_decision(
        CreateDecision {
            project_id: "p1".into(),
            title: " Use SQLite ".into(),
            rationale: "Local first".into(),
            confidence: ClaimConfidence::High,
            source_labels: vec![" ADR-003 ".into()],
        },
        None,
    )
    .unwrap();
    assert_eq!(claim.title, "Use SQLite");
    assert_eq!(claim.status, "confirmed");
    assert_eq!(claim.sources[0].label, "ADR-003");
    assert_eq!(supersede_target(Some(claim.clone())).unwrap().id, claim.id);
    let mut old = claim.clone();
    old.status = "superseded".into();
    assert_eq!(
        message(supersede_target(Some(old)).unwrap_err()),
        "Only the current version of a decision can be corrected. Review the latest local record."
    );
    let (title, detail) = decision_activity("New", Some("Old"));
    assert_eq!(title, "Decision corrected locally");
    assert_eq!(detail, "“New” now supersedes “Old”.");
}

#[test]
fn migrations_apply_newer_versions_only_and_refuse_newer_databases() {
    let migrations = [
        Migration { version: 1, name: "first", sql: "" },
        Migration { version: 2, name: "second", sql: "" },
    ];
    assert_eq!(pending_migrations(0, &migrations).unwrap(), vec![0, 1]);
    assert_eq!(pending_migrations(1, &migrations).unwrap(), vec![1]);
    assert!(pending_migrations(2, &migrations).unwrap().is_empty());
    assert_eq!(
        message(pending_migrations(3, &migrations).unwrap_err()),
        "Aura found a newer local database format. Update Aura before opening this workspace."
    );
    assert_eq!(
        migration_failure(&migrations[1], "boom"),
        "Aura could not apply local schema migration 2 (second). Your existing database was left unchanged: boom"
    );
}

#[test]
fn privacy_preferences_default_and_exclusions_validate() {
    let preferences = privacy_preferences_from(None, None, vec![]).unwrap();
    assert_eq!(preferences.privacy_mode, PrivacyMode::ManualOnly);
    assert_eq!(preferences.default_capture_retention, CaptureRetention::UntilDeleted);
    assert!(privacy_preferences_from(Some("focused"), None, vec![]).is_err());
    let rule = prepare_exclusion_rule(ExclusionKind::Domain, " example.com ").unwrap();
    assert_eq!(rule.value, "example.com");
    assert!(rule.is_enabled);
    assert!(prepare_exclusion_rule(ExclusionKind::Domain, "  ").is_err());
    assert!(prepare_exclusion_rule(ExclusionKind::Domain, &"x".repeat(161)).is_err());
    assert!(exclusion_rule_from_row("i".into(), "window", "v".into(), 1, "t".into(), "t".into()).is_none());
    assert!(!exclusion_rule_from_row("i".into(), "project", "v".into(), 0, "t".into(), "t".into()).unwrap().is_enabled);
}

fn decision(title: &str, labels: Vec<String>, supersedes: Option<String>) -> Result<aura::domain::claim::DecisionClaim, AuraError> {
    prepare_decision(
        CreateDecision {
            project_id: "p1".into(),
            title: title.into(),
            rationale: "Local first".into(),
            confidence: ClaimConfidence::Medium,
            source_labels: labels,
        },
        supersedes,
    )
}

#[test]
fn decisions_with_bad_sources_are_refused() {
    assert_eq!(
        message(decision("Use SQLite", vec![], None).unwrap_err()),
        "Add at least one source or basis for this decision."
    );
    assert_eq!(
        message(decision("Use SQLite", vec!["s".to_string(); 13], None).unwrap_err()),
        "A decision can include at most 12 local source references."
    );
    assert_eq!(
        message(decision("Use SQLite", vec!["ok".into(), "   ".into()], None).unwrap_err()),
        "Source reference is required before Aura can save it locally."
    );
    assert_eq!(
        message(decision("Use SQLite", vec!["x".repeat(241)], None).unwrap_err()),
        "Source reference must be 240 characters or fewer."
    );
    assert_eq!(decision("Use SQLite", vec!["s".to_string(); 12], None).unwrap().sources.len(), 12);
}

#[test]
fn a_correction_and_the_decision_it_supersedes_point_at_each_other() {
    let previous = decision("Use SQLite", vec!["ADR-003".into()], None).unwrap();
    let correction = decision("Use SQLite with WAL", vec!["ADR-003".into()], Some(previous.id.clone())).unwrap();
    assert_eq!(correction.supersedes_claim_id.as_deref(), Some(previous.id.as_str()));
    let after = superseded_version(previous.clone(), &correction);
    assert_eq!(after.id, previous.id);
    assert_eq!(after.title, previous.title);
    assert_eq!(after.status, "superseded");
    assert_eq!(after.superseded_by_claim_id.as_deref(), Some(correction.id.as_str()));
    assert_eq!(after.updated_at, correction.created_at);
    assert_eq!(after.sources, previous.sources);
    assert!(check_supersede_link(1).is_ok());
    assert_eq!(
        message(check_supersede_link(0).unwrap_err()),
        "Aura could not link the correction to the current local decision safely."
    );
}
