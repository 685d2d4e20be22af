use aura::application::retention_service::RetentionService;
use aura::db::repositories::captures::LifecycleCapture;
use aura::time::UtcInstant;
use chrono::{Duration, Utc};

fn capture(retention: &str, classification: &str, days_old: i64, state: &str) -> LifecycleCapture {
    let created = Utc::now() - Duration::days(days_old);
    LifecycleCapture {
        id: format!("cap-{retention}-{classification}-{state}"),
        project_id: "project-id".to_string(),
        kind: "manual_note".to_string(),
        label: "Retention test capture".to_string(),
        content: "Aging context used by retention sweep tests.".to_string(),
        classification: classification.to_string(),
        retention: retention.to_string(),
        created_at: created.to_rfc3339_opts(chrono::SecondsFormat::Millis, true),
        lifecycle_state: state.to_string(),
        lifecycle_updated_at: created.to_rfc3339_opts(chrono::SecondsFormat::Millis, true),
    }
}

fn service() -> RetentionService {
    RetentionService::new(UtcInstant::now())
}

#[test]
fn standard_review_capture_becomes_aged_after_thirty_days() {
    let service = service();
    let captures = vec![capture("review_in_30_days", "standard", 31, "active")];
    let (reviewable, result) = service.classify_pass(&captures).expect("classify pass");

    assert_eq!(reviewable.len(), 1);
    assert_eq!(result.captures_aged_now, 1);
    assert_eq!(result.captures_protected, 0);
    assert_eq!(reviewable[0].days_aged, 31);
}

#[test]
fn capture_younger_than_thirty_days_stays_active() {
    let service = service();
    let captures = vec![capture("review_in_30_days", "standard", 12, "active")];
    let (_, result) = service.classify_pass(&captures).expect("classify pass");

    assert_eq!(result.captures_aged_now, 0);
}

#[test]
fn until_deleted_retention_is_never_aged() {
    let service = service();
    let captures = vec![capture("until_deleted", "standard", 400, "active")];
    let (reviewable, result) = service.classify_pass(&captures).expect("classify pass");

    assert!(reviewable.is_empty());
    assert_eq!(result.captures_protected, 1);
}

#[test]
fn sensitive_captures_are_never_aged_automatically() {
    let service = service();
    let captures = vec![capture("review_in_30_days", "sensitive", 60, "active")];
    let (reviewable, result) = service.classify_pass(&captures).expect("classify pass");

    assert!(reviewable.is_empty());
    assert_eq!(result.captures_protected, 1);
}

#[test]
fn already_aged_captures_are_counted_but_not_re_aged() {
    let service = service();
    let captures = vec![
        capture("review_in_30_days", "standard", 45, "aged"),
        capture("review_in_30_days", "standard", 31, "active"),
    ];
    let (reviewable, result) = service.classify_pass(&captures).expect("classify pass");

    assert_eq!(reviewable.len(), 1);
    assert_eq!(result.captures_already_aged, 1);
    assert_eq!(result.captures_aged_now, 1);
}

#[test]
fn deleted_captures_are_ignored_by_the_sweep() {
    let service = service();
    let captures = vec![capture("review_in_30_days", "standard", 31, "deleted")];
    let (reviewable, result) = service.classify_pass(&captures).expect("classify pass");

    assert!(reviewable.is_empty());
    assert_eq!(result.captures_reviewed, 1);
    assert_eq!(result.captures_aged_now, 0);
}

#[test]
fn empty_workspace_sweep_is_harmless() {
    let service = service();
    let (_, result) = service.classify_pass(&[]).expect("classify pass");

    assert_eq!(result.captures_reviewed, 0);
    assert_eq!(result.captures_aged_now, 0);
}

#[test]
fn unreadable_captures_stop_the_pass() {
    let service = service();
    let mut broken = capture("review_in_30_days", "standard", 31, "active");
    broken.created_at = "yesterday".to_string();
    let error = service.classify_pass(&[broken]).unwrap_err();
    assert_eq!(error.message(), "Aura could not read a capture timestamp while ageing context.");
    let odd = capture("review_in_30_days", "secret", 31, "active");
    assert_eq!(
        service.classify_pass(&[odd]).unwrap_err().message(),
        "Aura found an unsupported capture classification while sweeping."
    );
}

#[test]
fn review_entries_report_their_age_in_days() {
    let now = UtcInstant::parse("2024-03-01T00:00:00.000Z").unwrap();
    let mut aged = capture("review_in_30_days", "standard", 0, "aged");
    aged.lifecycle_updated_at = "2024-02-20T12:00:00.000Z".to_string();
    let entry = aura::commands::reviewable_at(&aged, now);
    assert_eq!(entry.days_aged, 9);
    assert_eq!(entry.aged_at, "2024-02-20T12:00:00.000Z");
    aged.lifecycle_updated_at = "not a time".to_string();
    assert_eq!(aura::commands::reviewable_at(&aged, now).days_aged, 0);
}

#[test]
fn a_capture_exactly_thirty_days_old_becomes_reviewable() {
    let now = UtcInstant::parse("2024-03-01T00:00:00Z").expect("now");
    let service = RetentionService::new(now);
    let mut exactly = capture("review_in_30_days", "standard", 0, "active");
    exactly.created_at = "2024-01-31T00:00:00.000Z".to_string();
    let mut just_younger = capture("review_in_30_days", "standard", 0, "active");
    just_younger.created_at = "2024-01-31T00:00:00.001Z".to_string();
    let (reviewable, result) = service.classify_pass(&[exactly, just_younger]).expect("classify pass");

    assert_eq!(result.captures_aged_now, 1);
    assert_eq!(reviewable.len(), 1);
    assert_eq!(reviewable[0].created_at, "2024-01-31T00:00:00.000Z");
    assert_eq!(reviewable[0].days_aged, 30);
}
