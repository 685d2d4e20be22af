//! Manual captures: validation, record assembly and lifecycle transitions.
//!
//! A capture is saved only to an active or paused project, with a label
//! and content, and a URL capture must be an http(s) URL. Once saved its
//! lifecycle moves `active` → `aged` (the sweep), `aged` → `active` (the
//! user keeps it) and `active` → `deleted` (the user deletes it); nothing
//! leaves `deleted`.
use crate::db::repositories::required_text;
use crate::db::repositories::claims::{text_ok, text_problem};
use crate::domain::capture::{CaptureClassification, CaptureKind, CaptureRecord, CaptureRetention};
use crate::domain::project::AuraError;
use crate::domain::retention::LifecycleState;
use crate::ids::new_id;
use crate::text::{chars_of, joined, trimmed};
use crate::time::utc_timestamp;
use vstd::prelude::*;

verus! {

/// The longest capture label, in bytes.
pub const CAPTURE_LABEL_LIMIT: usize = 120;

/// The longest capture content, in bytes.
pub const CAPTURE_CONTENT_LIMIT: usize = 20000;

/// A request to save a manual capture.
#[derive(Clone, Debug)]
pub struct CreateCapture {
    pub project_id: String,
    pub kind: CaptureKind,
    pub label: String,
    pub content: String,
    pub classification: CaptureClassification,
    pub retention: CaptureRetention,
}

/// A capture row as the retention sweep reads it, lifecycle columns
/// included.
#[derive(Clone, Debug)]
pub struct LifecycleCapture {
    pub id: String,
    pub project_id: String,
    pub kind: String,
    pub label: String,
    pub content: String,
    pub classification: String,
    pub retention: String,
    pub created_at: String,
    pub lifecycle_state: String,
    pub lifecycle_updated_at: String,
}

/// `c` lower-cases (ASCII only) to the lower-case pattern character `p`.
pub open spec fn ascii_lower_is(c: char, p: char) -> bool {
    c == p || ('A' <= c && c <= 'Z' && (c as u32) + 32 == (p as u32))
}

/// `s` begins with the lower-case `pattern`, ignoring ASCII case.
pub open spec fn starts_with_ignoring_ascii_case(s: Seq<char>, pattern: Seq<char>) -> bool {
    &&& pattern.len() <= s.len()
    &&& forall|i: int| 0 <= i < pattern.len() ==> ascii_lower_is(#[trigger] s[i], pattern[i])
}

/// An http(s) URL, whatever the case of its scheme.
pub open spec fn is_safe_url_text(value: Seq<char>) -> bool {
    starts_with_ignoring_ascii_case(value, "https://"@) || starts_with_ignoring_ascii_case(
        value,
        "http://"@,
    )
}

fn starts_with_ascii_ci(chars: &[char], pattern: &[char]) -> (r: bool)
    ensures
        r == starts_with_ignoring_ascii_case(chars@, pattern@),
{
    if pattern.len() > chars.len() {
        return false;
    }
    let mut i: usize = 0;
    while i < pattern.len()
        invariant
            pattern@.len() <= chars@.len(),
            i <= pattern@.len(),
            forall|j: int| 0 <= j < i ==> ascii_lower_is(#[trigger] chars@[j], pattern@[j]),
        decreases pattern.len() - i,
    {
        let c = chars[i];
        let p = pattern[i];
        let same = c == p || ('A' <= c && c <= 'Z' && (c as u32) + 32 == (p as u32));
        if !same {
            return false;
        }
        i = i + 1;
    }
    true
}

/// Whether a URL capture's content is an http(s) URL.
pub fn is_safe_url(value: &str) -> (r: bool)
    ensures
        r == is_safe_url_text(value@),
{
    let chars = chars_of(value);
    let https = chars_of("https://");
    let http = chars_of("http://");
    starts_with_ascii_ci(chars.as_slice(), https.as_slice()) || starts_with_ascii_ci(
        chars.as_slice(),
        http.as_slice(),
    )
}

/// The label a capture kind is described with in the activity record.
pub open spec fn kind_label(kind: CaptureKind) -> Seq<char> {
    match kind {
        CaptureKind::ManualNote => "Manual note"@,
        CaptureKind::PastedText => "Pasted text"@,
        CaptureKind::Url => "URL"@,
    }
}

/// The label a capture kind is described with in the activity record.
pub fn capture_kind_label(kind: CaptureKind) -> (r: &'static str)
    ensures
        r@ == kind_label(kind),
{
    match kind {
        CaptureKind::ManualNote => "Manual note",
        CaptureKind::PastedText => "Pasted text",
        CaptureKind::Url => "URL",
    }
}

/// Whether a capture may be saved to a project with this stored status
/// (`None` when the project is not stored): only active and paused
/// projects take captures.
pub fn capture_destination(status: Option<&str>) -> (r: Result<(), AuraError>)
    ensures
        match status {
            None => r matches Err(e) && e.is_not_found_with(
                "Aura cannot save a capture to a project that is not stored locally."@,
            ),
            Some(s) => if s@ == "active"@ || s@ == "paused"@ {
                r is Ok
            } else {
                r matches Err(e) && e.is_invalid_input_with(
                    "Aura cannot save a capture to a "@ + (s@ + " project."@),
                )
            },
        },
{
    match status {
        None => Err(
            AuraError::NotFound(
                String::from_str(
                    "Aura cannot save a capture to a project that is not stored locally.",
                ),
            ),
        ),
        Some(s) => {
            if crate::text::same_text(s, "active") || crate::text::same_text(s, "paused") {
                Ok(())
            } else {
                let tail = joined(s, " project.");
                Err(AuraError::InvalidInput(joined("Aura cannot save a capture to a ", tail.as_str())))
            }
        },
    }
}

/// The capture record for a request, once the destination project's stored
/// status allows it: the label and content trimmed and within their
/// limits, a URL capture an http(s) URL, a fresh identifier, created now.
pub fn prepare_capture(input: CreateCapture, project_status: Option<&str>) -> (r: Result<
    CaptureRecord,
    AuraError,
>)
    ensures
        r matches Ok(record) ==> {
            &&& (project_status matches Some(s) && (s@ == "active"@ || s@ == "paused"@))
            &&& text_ok(input.label@, CAPTURE_LABEL_LIMIT)
            &&& text_ok(input.content@, CAPTURE_CONTENT_LIMIT)
            &&& input.kind == CaptureKind::Url ==> is_safe_url_text(trimmed(input.content@))
            &&& record.project_id@ == input.project_id@
            &&& record.kind == input.kind
            &&& record.label@ == trimmed(input.label@)
            &&& record.content@ == trimmed(input.content@)
            &&& record.classification == input.classification
            &&& record.retention == input.retention
            &&& record.id@.len() == 36
        },
        (project_status matches Some(s) && (s@ == "active"@ || s@ == "paused"@)) ==> {
            &&& !text_ok(input.label@, CAPTURE_LABEL_LIMIT) ==> (r matches Err(e)
                && e.is_invalid_input_with(
                text_problem("Capture label"@, input.label@, CAPTURE_LABEL_LIMIT),
            ))
            &&& text_ok(input.label@, CAPTURE_LABEL_LIMIT) && !text_ok(
                input.content@,
                CAPTURE_CONTENT_LIMIT,
            ) ==> (r matches Err(e) && e.is_invalid_input_with(
                text_problem("Capture content"@, input.content@, CAPTURE_CONTENT_LIMIT),
            ))
            &&& text_ok(input.label@, CAPTURE_LABEL_LIMIT) && text_ok(
                input.content@,
                CAPTURE_CONTENT_LIMIT,
            ) && input.kind == CaptureKind::Url && !is_safe_url_text(trimmed(input.content@))
                ==> (r matches Err(e) && e.is_invalid_input_with(
                "A URL capture must begin with http:// or https://."@,
            ))
            &&& text_ok(input.label@, CAPTURE_LABEL_LIMIT) && text_ok(
                input.content@,
                CAPTURE_CONTENT_LIMIT,
            ) && (input.kind == CaptureKind::Url ==> is_safe_url_text(trimmed(input.content@)))
                ==> r is Ok
        },
        match project_status {
            None => r matches Err(e) && e.is_not_found_with(
                "Aura cannot save a capture to a project that is not stored locally."@,
            ),
            Some(s) => !(s@ == "active"@ || s@ == "paused"@) ==> (r matches Err(e)
                && e.is_invalid_input_with(
                "Aura cannot save a capture to a "@ + (s@ + " project."@),
            )),
        },
{
    capture_destination(project_status)?;
    let label = required_text("Capture label", input.label.as_str(), CAPTURE_LABEL_LIMIT)?;
    let content = required_text("Capture content", input.content.as_str(), CAPTURE_CONTENT_LIMIT)?;
    if input.kind == CaptureKind::Url && !is_safe_url(content.as_str()) {
        return Err(
            AuraError::InvalidInput(
                String::from_str("A URL capture must begin with http:// or https://."),
            ),
        );
    }
    Ok(
        CaptureRecord {
            id: new_id(),
            project_id: input.project_id,
            kind: input.kind,
            label,
            content,
            classification: input.classification,
            retention: input.retention,
            created_at: utc_timestamp(),
        },
    )
}

/// The activity detail recorded when a capture is saved.
pub fn capture_activity_detail(record: &CaptureRecord) -> (r: String)
    ensures
        r@ == kind_label(record.kind) + (" capture “"@ + (record.label@ + ("” was saved with "@ + (
        record.classification.spec_name() + (" classification and "@ + (
        record.retention.spec_name() + " retention."@)))))),
{
    let end = joined(record.retention.as_str(), " retention.");
    let part = joined(" classification and ", end.as_str());
    let part = joined(record.classification.as_str(), part.as_str());
    let part = joined("” was saved with ", part.as_str());
    let part = joined(record.label.as_str(), part.as_str());
    let part = joined(" capture “", part.as_str());
    joined(capture_kind_label(record.kind), part.as_str())
}

/// A user or sweep action on a capture's lifecycle.
#[derive(Clone, Copy, Debug, PartialEq, Eq, Structural)]
pub enum CaptureLifecycleAction {
    /// The sweep ages an active capture.
    Age,
    /// The user keeps an aged capture: it is active again.
    Keep,
    /// The user deletes an active capture.
    Delete,
}

/// The state an action moves a capture to from `state`, or `None` when the
/// action does not apply there.
pub open spec fn lifecycle_after(action: CaptureLifecycleAction, state: LifecycleState) -> Option<
    LifecycleState,
> {
    match (action, state) {
        (CaptureLifecycleAction::Age, LifecycleState::Active) => Some(LifecycleState::Aged),
        (CaptureLifecycleAction::Keep, LifecycleState::Aged) => Some(LifecycleState::Active),
        (CaptureLifecycleAction::Delete, LifecycleState::Active) => Some(LifecycleState::Deleted),
        _ => None,
    }
}

impl CaptureLifecycleAction {
    /// The state the action applies to.
    pub open spec fn spec_from(self) -> LifecycleState {
        match self {
            CaptureLifecycleAction::Keep => LifecycleState::Aged,
            _ => LifecycleState::Active,
        }
    }

    /// The state the action leads to.
    pub open spec fn spec_to(self) -> LifecycleState {
        match self {
            CaptureLifecycleAction::Age => LifecycleState::Aged,
            CaptureLifecycleAction::Keep => LifecycleState::Active,
            CaptureLifecycleAction::Delete => LifecycleState::Deleted,
        }
    }

    /// The state the action applies to.
    pub fn from_state(&self) -> (r: LifecycleState)
        ensures
            r == self.spec_from(),
            lifecycle_after(*self, r) == Some(self.spec_to()),
    {
        match self {
            CaptureLifecycleAction::Keep => LifecycleState::Aged,
            _ => LifecycleState::Active,
        }
    }

    /// The state the action leads to.
    pub fn to_state(&self) -> (r: LifecycleState)
        ensures
            r == self.spec_to(),
    {
        match self {
            CaptureLifecycleAction::Age => LifecycleState::Aged,
            CaptureLifecycleAction::Keep => LifecycleState::Active,
            CaptureLifecycleAction::Delete => LifecycleState::Deleted,
        }
    }

    /// The message a refused transition is reported with.
    pub open spec fn spec_refusal(self) -> Seq<char> {
        match self {
            CaptureLifecycleAction::Age => "Ageing this capture is not allowed right now: Aura could not find an active candidate with that identifier, or its lifecycle state changed before the request."@,
            CaptureLifecycleAction::Keep => "Aura could not keep that capture: it is not in the review state right now."@,
            CaptureLifecycleAction::Delete => "Deleting this capture is not allowed right now: Aura could not find an active candidate with that identifier, or its lifecycle state changed before the request."@,
        }
    }

    /// The message a capture that cannot be reloaded is reported with.
    pub open spec fn spec_reload_failure(self) -> Seq<char> {
        match self {
            CaptureLifecycleAction::Keep => "Aura could not reload the capture after keeping it."@,
            _ => "Aura could not reload the capture after its lifecycle transition."@,
        }
    }
}

/// The outcome of a transition, from the number of rows the conditional
/// update changed (the row must have been in the action's from-state) and
/// the row reloaded afterwards.
pub fn transition_outcome(
    action: CaptureLifecycleAction,
    updated_rows: usize,
    reloaded: Option<LifecycleCapture>,
) -> (r: Result<LifecycleCapture, AuraError>)
    ensures
        updated_rows == 0 ==> (r matches Err(e) && e.is_invalid_input_with(action.spec_refusal())),
        updated_rows > 0 ==> match reloaded {
            Some(c) => r == Ok::<LifecycleCapture, AuraError>(c),
            None => r matches Err(e) && e.is_not_found_with(action.spec_reload_failure()),
        },
{
    if updated_rows == 0 {
        let message = match action {
            CaptureLifecycleAction::Age => String::from_str(
                "Ageing this capture is not allowed right now: Aura could not find an active candidate with that identifier, or its lifecycle state changed before the request.",
            ),
            CaptureLifecycleAction::Keep => String::from_str(
                "Aura could not keep that capture: it is not in the review state right now.",
            ),
            CaptureLifecycleAction::Delete => String::from_str(
                "Deleting this capture is not allowed right now: Aura could not find an active candidate with that identifier, or its lifecycle state changed before the request.",
            ),
        };
        return Err(AuraError::InvalidInput(message));
    }
    match reloaded {
        Some(capture) => Ok(capture),
        None => {
            let message = match action {
                CaptureLifecycleAction::Keep => String::from_str(
                    "Aura could not reload the capture after keeping it.",
                ),
                _ => String::from_str(
                    "Aura could not reload the capture after its lifecycle transition.",
                ),
            };
            Err(AuraError::NotFound(message))
        },
    }
}

/// Nothing leaves `deleted`, only an aged capture can be kept, and only an
/// active one aged or deleted.
pub proof fn lemma_lifecycle_transitions(action: CaptureLifecycleAction, state: LifecycleState)
    ensures
        lifecycle_after(action, LifecycleState::Deleted) is None,
        lifecycle_after(CaptureLifecycleAction::Keep, state) is Some <==> state
            == LifecycleState::Aged,
        lifecycle_after(CaptureLifecycleAction::Age, state) is Some <==> state
            == LifecycleState::Active,
        lifecycle_after(CaptureLifecycleAction::Delete, state) is Some <==> state
            == LifecycleState::Active,
        lifecycle_after(action, state) matches Some(next) ==> next == action.spec_to() && state
            == action.spec_from(),
{
}

} // verus!
