//! The checks the command layer makes before it calls a service: privacy
//! authorization, parsing of the renderer's choices, and the small record
//! conversions the commands return.
use crate::application::retention_service::days_until;
use crate::db::repositories::captures::LifecycleCapture;
use crate::domain::capture::{CaptureClassification, CaptureKind, CaptureRetention};
use crate::domain::claim::ClaimConfidence;
use crate::domain::project::AuraError;
use crate::domain::retention::ReviewableCapture;
use crate::domain::settings::PrivacyMode;
use crate::text::{chars_of, is_blank, joined, string_of, trim_text, trimmed};
use crate::time::{spec_parse_utc, UtcInstant, SECONDS_PER_DAY};
use vstd::prelude::*;

verus! {

/// Authorizes an intentional capture for a project: refused while capture
/// is paused, allowed in manual-only mode.
pub fn authorize_intentional_marker(project_id: String, privacy_mode: &PrivacyMode) -> (r: Result<
    String,
    AuraError,
>)
    ensures
        *privacy_mode == PrivacyMode::Paused ==> (r matches Err(e) && e.is_privacy_with(
            "Intentional capture is paused. Resume it before adding context."@,
        )),
        *privacy_mode == PrivacyMode::ManualOnly ==> (r matches Ok(id) && id@ == project_id@),
{
    match privacy_mode {
        PrivacyMode::Paused => Err(
            AuraError::Privacy(
                String::from_str("Intentional capture is paused. Resume it before adding context."),
            ),
        ),
        PrivacyMode::ManualOnly => Ok(project_id),
    }
}

/// The confidence the renderer chose for a decision.
pub fn parse_claim_confidence(value: &str) -> (r: Result<ClaimConfidence, AuraError>)
    ensures
        match ClaimConfidence::spec_parse(value@) {
            Some(c) => r == Ok::<ClaimConfidence, AuraError>(c),
            None => r matches Err(e) && e.is_invalid_input_with(
                "Choose low, medium, or high confidence before saving a decision."@,
            ),
        },
{
    match ClaimConfidence::from_store(value) {
        Ok(c) => Ok(c),
        Err(_) => Err(
            AuraError::InvalidInput(
                String::from_str("Choose low, medium, or high confidence before saving a decision."),
            ),
        ),
    }
}

/// The capture kind the renderer chose.
pub fn parse_capture_kind(value: &str) -> (r: Result<CaptureKind, AuraError>)
    ensures
        match CaptureKind::spec_parse(value@) {
            Some(k) => r == Ok::<CaptureKind, AuraError>(k),
            None => r matches Err(e) && e.is_invalid_input_with(
                "Choose a supported manual capture type before saving."@,
            ),
        },
{
    match CaptureKind::from_store(value) {
        Ok(k) => Ok(k),
        Err(_) => Err(
            AuraError::InvalidInput(
                String::from_str("Choose a supported manual capture type before saving."),
            ),
        ),
    }
}

/// The capture classification the renderer chose.
pub fn parse_capture_classification(value: &str) -> (r: Result<CaptureClassification, AuraError>)
    ensures
        match CaptureClassification::spec_parse(value@) {
            Some(c) => r == Ok::<CaptureClassification, AuraError>(c),
            None => r matches Err(e) && e.is_invalid_input_with(
                "Choose a supported capture classification before saving."@,
            ),
        },
{
    match CaptureClassification::from_store(value) {
        Ok(c) => Ok(c),
        Err(_) => Err(
            AuraError::InvalidInput(
                String::from_str("Choose a supported capture classification before saving."),
            ),
        ),
    }
}

/// The capture retention the renderer chose.
pub fn parse_capture_retention(value: &str) -> (r: Result<CaptureRetention, AuraError>)
    ensures
        match CaptureRetention::spec_parse(value@) {
            Some(v) => r == Ok::<CaptureRetention, AuraError>(v),
            None => r matches Err(e) && e.is_invalid_input_with(
                "Choose a supported retention setting before saving."@,
            ),
        },
{
    match CaptureRetention::from_store(value) {
        Ok(v) => Ok(v),
        Err(_) => Err(
            AuraError::InvalidInput(
                String::from_str("Choose a supported retention setting before saving."),
            ),
        ),
    }
}

/// Whole days from an instant to `now`, never negative.
fn whole_days_since(since: UtcInstant, now: UtcInstant) -> (r: i64)
    ensures
        r == days_until(since.spec_seconds(), since.spec_nanos(), now),
{
    let mut whole: i128 = (now.seconds() as i128) - (since.seconds() as i128);
    if now.nanos() < since.nanos() {
        whole = whole - 1;
    }
    if whole < 0 {
        proof {
            assert(whole / 86_400 < 0) by (nonlinear_arith)
                requires
                    whole < 0,
            ;
        }
        return 0;
    }
    let days: i128 = whole / (SECONDS_PER_DAY as i128);
    proof {
        assert(whole <= 0x1_0000_0000_0000_0000);
        assert(days <= 0x1_0000_0000_0000_0000int / 86_400) by (nonlinear_arith)
            requires
                days == whole / 86_400,
                0 <= whole <= 0x1_0000_0000_0000_0000,
        ;
        assert(days >= 0) by (nonlinear_arith)
            requires
                days == whole / 86_400,
                0 <= whole,
        ;
    }
    days as i64
}

/// The review entry for a capture the sweep aged, at `now`: it has been
/// aged since its last lifecycle change (or since now, when that time
/// cannot be read), in whole days.
pub fn reviewable_at(capture: &LifecycleCapture, now: UtcInstant) -> (r: ReviewableCapture)
    ensures
        r.id@ == capture.id@,
        r.project_id@ == capture.project_id@,
        r.label@ == capture.label@,
        r.classification@ == capture.classification@,
        r.created_at@ == capture.created_at@,
        r.aged_at@ == capture.lifecycle_updated_at@,
        r.days_aged == match spec_parse_utc(capture.lifecycle_updated_at@) {
            Some((seconds, nanos)) => days_until(seconds, nanos, now),
            None => 0,
        },
{
    let days_aged = match UtcInstant::parse(capture.lifecycle_updated_at.as_str()) {
        Some(since) => whole_days_since(since, now),
        None => {
            proof {
                assert(days_until(now.spec_seconds(), now.spec_nanos(), now) == 0);
            }
            0
        },
    };
    ReviewableCapture {
        id: capture.id.clone(),
        project_id: capture.project_id.clone(),
        label: capture.label.clone(),
        classification: capture.classification.clone(),
        created_at: capture.created_at.clone(),
        aged_at: capture.lifecycle_updated_at.clone(),
        days_aged,
    }
}

/// The review entry for an aged capture, as of the current time.
pub fn reviewable_from_lifecycle(capture: &LifecycleCapture) -> (r: ReviewableCapture)
    ensures
        r.id@ == capture.id@,
        r.project_id@ == capture.project_id@,
        r.label@ == capture.label@,
        r.classification@ == capture.classification@,
        r.created_at@ == capture.created_at@,
        r.aged_at@ == capture.lifecycle_updated_at@,
        r.days_aged >= 0,
        spec_parse_utc(capture.lifecycle_updated_at@) is None ==> r.days_aged == 0,
{
    reviewable_at(capture, UtcInstant::now())
}

/// An ASCII letter or digit.
pub open spec fn is_ascii_alphanumeric(c: char) -> bool {
    ('a' <= c && c <= 'z') || ('A' <= c && c <= 'Z') || ('0' <= c && c <= '9')
}

/// The file name an archive is offered under: `aura-workspace-`, the
/// timestamp with every character other than an ASCII letter or digit
/// replaced by `-`, then `.aura`.
pub fn archive_file_name(timestamp: &str) -> (r: String)
    ensures
        r@ == "aura-workspace-"@ + (timestamp@.map_values(
            |c: char|
                if is_ascii_alphanumeric(c) {
                    c
                } else {
                    '-'
                },
        ) + ".aura"@),
{
    let chars = chars_of(timestamp);
    let mut out: Vec<char> = Vec::new();
    let mut i: usize = 0;
    while i < chars.len()
        invariant
            i <= chars@.len(),
            out@ == chars@.subrange(0, i as int).map_values(
                |c: char|
                    if is_ascii_alphanumeric(c) {
                        c
                    } else {
                        '-'
                    },
            ),
        decreases chars.len() - i,
    {
        let c = chars[i];
        let kept = ('a' <= c && c <= 'z') || ('A' <= c && c <= 'Z') || ('0' <= c && c <= '9');
        if kept {
            out.push(c);
        } else {
            out.push('-');
        }
        assert(chars@.subrange(0, i + 1) =~= chars@.subrange(0, i as int).push(c));
        i = i + 1;
    }
    assert(chars@.subrange(0, chars@.len() as int) =~= chars@);
    let stamp = string_of(out.as_slice());
    let tail = joined(stamp.as_str(), ".aura");
    joined("aura-workspace-", tail.as_str())
}

/// The transcript the brain is asked about: trimmed, and refused when
/// blank.
pub fn brain_transcript(transcript: &str) -> (r: Result<String, String>)
    ensures
        is_blank(transcript@) ==> (r matches Err(m) && m@
            == "Cortex needs something to reason about — type or dictate first."@),
        !is_blank(transcript@) ==> (r matches Ok(t) && t@ == trimmed(transcript@)),
{
    let text = trim_text(transcript);
    if text.as_str().is_empty() {
        return Err(
            String::from_str("Cortex needs something to reason about — type or dictate first."),
        );
    }
    Ok(text)
}

} // verus!
