//! Storage-side rules: migration planning, the privacy settings read back
//! from the store, and the checks and record assembly that precede every
//! write. The SQL itself runs around this module.
pub mod migrations;
pub mod repositories;

use crate::domain::capture::CaptureRetention;
use crate::domain::project::AuraError;
use crate::domain::settings::{ExclusionKind, ExclusionRule, PrivacyMode, PrivacyPreferences};
use crate::ids::new_id;
use crate::text::{is_blank, trim_text, trimmed, utf8_len};
use crate::time::utc_timestamp;
use vstd::prelude::*;

verus! {

/// The longest exclusion value, in bytes.
pub const EXCLUSION_VALUE_LIMIT: usize = 160;

/// The default capture retention a stored setting denotes: `until_deleted`
/// when nothing is stored, and a stored spelling that is not supported is
/// refused.
pub fn default_capture_retention_from(stored: Option<&str>) -> (r: Result<
    CaptureRetention,
    AuraError,
>)
    ensures
        match stored {
            None => r == Ok::<CaptureRetention, AuraError>(CaptureRetention::UntilDeleted),
            Some(v) => match CaptureRetention::spec_parse(v@) {
                Some(value) => r == Ok::<CaptureRetention, AuraError>(value),
                None => r matches Err(e) && e.is_storage_with(
                    "Aura found an unsupported local capture retention setting."@,
                ),
            },
        },
{
    match stored {
        None => Ok(CaptureRetention::UntilDeleted),
        Some(v) => CaptureRetention::from_store(v),
    }
}

/// The privacy preferences read back from the stored settings: the
/// privacy mode (`manual_only` when none is stored), the default capture
/// retention, and the exclusion rules. An unsupported stored spelling is
/// refused, the retention's first.
pub fn privacy_preferences_from(
    privacy_mode: Option<&str>,
    retention: Option<&str>,
    exclusions: Vec<ExclusionRule>,
) -> (r: Result<PrivacyPreferences, AuraError>)
    ensures
        ({
            let mode_text = match privacy_mode {
                Some(m) => m@,
                None => "manual_only"@,
            };
            let retention_value = match retention {
                None => Some(CaptureRetention::UntilDeleted),
                Some(v) => CaptureRetention::spec_parse(v@),
            };
            match retention_value {
                None => r matches Err(e) && e.is_storage_with(
                    "Aura found an unsupported local capture retention setting."@,
                ),
                Some(value) => match PrivacyMode::spec_parse(mode_text) {
                    None => r matches Err(e) && e.is_storage_with(
                        "Aura found an unsupported local privacy mode."@,
                    ),
                    Some(mode) => r matches Ok(p) && p.privacy_mode == mode
                        && p.default_capture_retention == value && p.exclusions@ == exclusions@,
                },
            }
        }),
{
    let mode_text: &str = match privacy_mode {
        Some(m) => m,
        None => "manual_only",
    };
    let default_capture_retention = default_capture_retention_from(retention)?;
    let privacy_mode = PrivacyMode::from_store(mode_text)?;
    Ok(PrivacyPreferences { privacy_mode, default_capture_retention, exclusions })
}

/// The exclusion rule for a creation request: the value must not be blank
/// and, as given, at most 160 bytes; it is stored trimmed, enabled, with a
/// fresh identifier, created now.
pub fn prepare_exclusion_rule(kind: ExclusionKind, value: &str) -> (r: Result<
    ExclusionRule,
    AuraError,
>)
    ensures
        is_blank(value@) ==> (r matches Err(e) && e.is_invalid_input_with(
            "An exclusion rule needs a non-empty application, domain, or project value."@,
        )),
        !is_blank(value@) && utf8_len(value@) > EXCLUSION_VALUE_LIMIT ==> (r matches Err(e)
            && e.is_invalid_input_with("An exclusion value must not exceed 160 characters."@)),
        !is_blank(value@) && utf8_len(value@) <= EXCLUSION_VALUE_LIMIT ==> (r matches Ok(rule)
            && rule.kind == kind && rule.value@ == trimmed(value@) && rule.is_enabled
            && rule.created_at@ == rule.updated_at@ && rule.id@.len() == 36),
{
    let trimmed_value = trim_text(value);
    if trimmed_value.as_str().is_empty() {
        return Err(
            AuraError::InvalidInput(
                String::from_str(
                    "An exclusion rule needs a non-empty application, domain, or project value.",
                ),
            ),
        );
    }
    if value.len() > EXCLUSION_VALUE_LIMIT {
        return Err(
            AuraError::InvalidInput(
                String::from_str("An exclusion value must not exceed 160 characters."),
            ),
        );
    }
    let now = utc_timestamp();
    Ok(
        ExclusionRule {
            id: new_id(),
            kind,
            value: trimmed_value,
            is_enabled: true,
            created_at: now.clone(),
            updated_at: now,
        },
    )
}

/// An exclusion rule read back from a stored row; a row of an unsupported
/// kind is skipped.
pub fn exclusion_rule_from_row(
    id: String,
    rule_type: &str,
    value: String,
    is_enabled: i64,
    created_at: String,
    updated_at: String,
) -> (r: Option<ExclusionRule>)
    ensures
        match ExclusionKind::spec_parse(rule_type@) {
            None => r is None,
            Some(kind) => r matches Some(rule) && rule.kind == kind && rule.id@ == id@
                && rule.value@ == value@ && rule.is_enabled == (is_enabled != 0)
                && rule.created_at@ == created_at@ && rule.updated_at@ == updated_at@,
        },
{
    match ExclusionKind::from_store(rule_type) {
        Ok(kind) => Some(
            ExclusionRule { id, kind, value, is_enabled: is_enabled != 0, created_at, updated_at },
        ),
        Err(_) => None,
    }
}

} // verus!
