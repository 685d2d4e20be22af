//! Decisions: validation and record assembly. A decision is never edited:
//! a correction supersedes the current version with a new claim.
use crate::db::repositories::required_text;
use crate::domain::claim::{ClaimConfidence, ClaimSource, DecisionClaim};
use crate::domain::project::AuraError;
use crate::ids::new_id;
use crate::text::{decimal_text, is_blank, joined, trimmed, utf8_len};
use crate::time::utc_timestamp;
use vstd::prelude::*;

verus! {

/// The longest decision title, in bytes.
pub const DECISION_TITLE_LIMIT: usize = 160;

/// The longest rationale, in bytes.
pub const RATIONALE_LIMIT: usize = 4000;

/// The longest source reference, in bytes.
pub const SOURCE_LABEL_LIMIT: usize = 240;

/// The most source references a decision can carry.
pub const MAX_SOURCES: usize = 12;

/// A request to record a decision.
#[derive(Clone, Debug)]
pub struct CreateDecision {
    pub project_id: String,
    pub title: String,
    pub rationale: String,
    pub confidence: ClaimConfidence,
    pub source_labels: Vec<String>,
}

/// A required text is acceptable under a byte limit.
pub open spec fn text_ok(value: Seq<char>, limit: usize) -> bool {
    !is_blank(value) && utf8_len(trimmed(value)) <= limit
}

/// The message a refused required text is reported with.
pub open spec fn text_problem(field: Seq<char>, value: Seq<char>, limit: usize) -> Seq<char> {
    if is_blank(value) {
        field + " is required before Aura can save it locally."@
    } else {
        field + (" must be "@ + (decimal_text(limit as nat) + " characters or fewer."@))
    }
}

/// Validates the source references of a decision: one to twelve, each a
/// required text of at most 240 bytes. Gives them trimmed, in order.
pub fn source_labels(values: Vec<String>) -> (r: Result<Vec<String>, AuraError>)
    ensures
        values@.len() == 0 ==> (r matches Err(e) && e.is_invalid_input_with(
            "Add at least one source or basis for this decision."@,
        )),
        values@.len() > MAX_SOURCES ==> (r matches Err(e) && e.is_invalid_input_with(
            "A decision can include at most 12 local source references."@,
        )),
        0 < values@.len() <= MAX_SOURCES ==> match r {
            Ok(labels) => labels@.len() == values@.len() && forall|i: int|
                0 <= i < values@.len() ==> text_ok(#[trigger] values@[i]@, SOURCE_LABEL_LIMIT)
                    && labels@[i]@ == trimmed(values@[i]@),
            Err(e) => exists|i: int|
                0 <= i < values@.len() && !text_ok(#[trigger] values@[i]@, SOURCE_LABEL_LIMIT)
                    && e.is_invalid_input_with(
                    text_problem("Source reference"@, values@[i]@, SOURCE_LABEL_LIMIT),
                ) && forall|j: int|
                    0 <= j < i ==> text_ok(#[trigger] values@[j]@, SOURCE_LABEL_LIMIT),
        },
{
    if values.len() == 0 {
        return Err(
            AuraError::InvalidInput(
                String::from_str("Add at least one source or basis for this decision."),
            ),
        );
    }
    if values.len() > MAX_SOURCES {
        return Err(
            AuraError::InvalidInput(
                String::from_str("A decision can include at most 12 local source references."),
            ),
        );
    }
    let mut labels: Vec<String> = Vec::new();
    let mut i: usize = 0;
    while i < values.len()
        invariant
            i <= values@.len(),
            0 < values@.len() <= MAX_SOURCES,
            labels@.len() == i,
            forall|j: int|
                0 <= j < i ==> text_ok(#[trigger] values@[j]@, SOURCE_LABEL_LIMIT)
                    && labels@[j]@ == trimmed(values@[j]@),
        decreases values.len() - i,
    {
        match required_text("Source reference", values[i].as_str(), SOURCE_LABEL_LIMIT) {
            Ok(label) => {
                labels.push(label);
            },
            Err(e) => {
                assert(!text_ok(values@[i as int]@, SOURCE_LABEL_LIMIT));
                return Err(e);
            },
        }
        i = i + 1;
    }
    Ok(labels)
}

/// Whether a decision may be saved to a project with this stored status
/// (`None` when the project is not stored).
pub fn decision_destination(status: Option<&str>) -> (r: Result<(), AuraError>)
    ensures
        match status {
            None => r matches Err(e) && e.is_not_found_with(
                "Aura cannot find this local project for the decision."@,
            ),
            Some(s) => if s@ == "active"@ || s@ == "paused"@ {
                r is Ok
            } else {
                r matches Err(e) && e.is_invalid_input_with(
                    "Aura cannot save a decision to a "@ + (s@ + " project."@),
                )
            },
        },
{
    match status {
        None => Err(
            AuraError::NotFound(
                String::from_str("Aura cannot find this local project for the decision."),
            ),
        ),
        Some(s) => {
            if crate::text::same_text(s, "active") || crate::text::same_text(s, "paused") {
                Ok(())
            } else {
                let tail = joined(s, " project.");
                Err(AuraError::InvalidInput(joined("Aura cannot save a decision to a ", tail.as_str())))
            }
        },
    }
}

/// Decisions are listed only for a stored project.
pub fn decision_project_exists(status: Option<&str>) -> (r: Result<(), AuraError>)
    ensures
        status is None ==> (r matches Err(e) && e.is_not_found_with(
            "Aura cannot find this local project."@,
        )),
        status is Some ==> r is Ok,
{
    match status {
        None => Err(AuraError::NotFound(String::from_str("Aura cannot find this local project."))),
        Some(_) => Ok(()),
    }
}

/// The decision a correction supersedes: it must be stored in the project
/// and be the current (confirmed) version.
pub fn supersede_target(previous: Option<DecisionClaim>) -> (r: Result<DecisionClaim, AuraError>)
    ensures
        match previous {
            None => r matches Err(e) && e.is_not_found_with(
                "Aura cannot correct a decision that is not stored in this local project."@,
            ),
            Some(p) => if p.status@ == "confirmed"@ {
                r == Ok::<DecisionClaim, AuraError>(p)
            } else {
                r matches Err(e) && e.is_invalid_input_with(
                    "Only the current version of a decision can be corrected. Review the latest local record."@,
                )
            },
        },
{
    match previous {
        None => Err(
            AuraError::NotFound(
                String::from_str(
                    "Aura cannot correct a decision that is not stored in this local project.",
                ),
            ),
        ),
        Some(claim) => {
            if !crate::text::same_text(claim.status.as_str(), "confirmed") {
                return Err(
                    AuraError::InvalidInput(
                        String::from_str(
                            "Only the current version of a decision can be corrected. Review the latest local record.",
                        ),
                    ),
                );
            }
            Ok(claim)
        },
    }
}

/// The claim record for a decision request: validated title, rationale and
/// sources, a fresh identifier, user-authored, confirmed, created now, and
/// superseding `supersedes` when it is a correction.
pub fn prepare_decision(input: CreateDecision, supersedes: Option<String>) -> (r: Result<
    DecisionClaim,
    AuraError,
>)
    ensures
        !text_ok(input.title@, DECISION_TITLE_LIMIT) ==> (r matches Err(e) && e.is_invalid_input_with(
            text_problem("Decision"@, input.title@, DECISION_TITLE_LIMIT),
        )),
        text_ok(input.title@, DECISION_TITLE_LIMIT) && !text_ok(input.rationale@, RATIONALE_LIMIT)
            ==> (r matches Err(e) && e.is_invalid_input_with(
            text_problem("Rationale"@, input.rationale@, RATIONALE_LIMIT),
        )),
        text_ok(input.title@, DECISION_TITLE_LIMIT) && text_ok(input.rationale@, RATIONALE_LIMIT)
            && input.source_labels@.len() == 0 ==> (r matches Err(e) && e.is_invalid_input_with(
            "Add at least one source or basis for this decision."@,
        )),
        text_ok(input.title@, DECISION_TITLE_LIMIT) && text_ok(input.rationale@, RATIONALE_LIMIT)
            && input.source_labels@.len() > MAX_SOURCES ==> (r matches Err(e)
            && e.is_invalid_input_with(
            "A decision can include at most 12 local source references."@,
        )),
        text_ok(input.title@, DECISION_TITLE_LIMIT) && text_ok(input.rationale@, RATIONALE_LIMIT)
            && 0 < input.source_labels@.len() <= MAX_SOURCES && (exists|i: int|
            0 <= i < input.source_labels@.len() && !text_ok(
                #[trigger] input.source_labels@[i]@,
                SOURCE_LABEL_LIMIT,
            )) ==> (r matches Err(e) && exists|i: int|
            0 <= i < input.source_labels@.len() && !text_ok(
                #[trigger] input.source_labels@[i]@,
                SOURCE_LABEL_LIMIT,
            ) && e.is_invalid_input_with(
                text_problem("Source reference"@, input.source_labels@[i]@, SOURCE_LABEL_LIMIT),
            ) && forall|j: int|
                0 <= j < i ==> text_ok(#[trigger] input.source_labels@[j]@, SOURCE_LABEL_LIMIT)),
        r matches Ok(claim) ==> {
            &&& text_ok(input.title@, DECISION_TITLE_LIMIT)
            &&& text_ok(input.rationale@, RATIONALE_LIMIT)
            &&& 0 < input.source_labels@.len() <= MAX_SOURCES
            &&& forall|i: int|
                0 <= i < input.source_labels@.len() ==> text_ok(
                    #[trigger] input.source_labels@[i]@,
                    SOURCE_LABEL_LIMIT,
                )
            &&& claim.project_id@ == input.project_id@
            &&& claim.title@ == trimmed(input.title@)
            &&& claim.rationale@ == trimmed(input.rationale@)
            &&& claim.confidence@ == input.confidence.spec_name()
            &&& claim.author_type@ == "user"@
            &&& claim.status@ == "confirmed"@
            &&& claim.created_at@ == claim.updated_at@
            &&& (match supersedes {
                Some(id) => claim.supersedes_claim_id matches Some(s) && s@ == id@,
                None => claim.supersedes_claim_id is None,
            })
            &&& claim.superseded_by_claim_id is None
            &&& claim.sources@.len() == input.source_labels@.len()
            &&& forall|i: int|
                0 <= i < claim.sources@.len() ==> (#[trigger] claim.sources@[i]).label@
                    == trimmed(input.source_labels@[i]@) && claim.sources@[i].created_at@
                    == claim.created_at@
        },
        text_ok(input.title@, DECISION_TITLE_LIMIT) && text_ok(input.rationale@, RATIONALE_LIMIT)
            && 0 < input.source_labels@.len() <= MAX_SOURCES && (forall|i: int|
            0 <= i < input.source_labels@.len() ==> text_ok(
                #[trigger] input.source_labels@[i]@,
                SOURCE_LABEL_LIMIT,
            )) ==> r is Ok,
{
    let title = required_text("Decision", input.title.as_str(), DECISION_TITLE_LIMIT)?;
    let rationale = required_text("Rationale", input.rationale.as_str(), RATIONALE_LIMIT)?;
    let labels = source_labels(input.source_labels)?;
    let now = utc_timestamp();
    let mut sources: Vec<ClaimSource> = Vec::new();
    let mut i: usize = 0;
    while i < labels.len()
        invariant
            i <= labels@.len(),
            sources@.len() == i,
            forall|j: int|
                0 <= j < i ==> (#[trigger] sources@[j]).label@ == labels@[j]@
                    && sources@[j].created_at@ == now@,
        decreases labels.len() - i,
    {
        sources.push(ClaimSource { id: new_id(), label: labels[i].clone(), created_at: now.clone() });
        i = i + 1;
    }
    Ok(
        DecisionClaim {
            id: new_id(),
            project_id: input.project_id,
            title,
            rationale,
            confidence: String::from_str(input.confidence.as_str()),
            author_type: String::from_str("user"),
            status: String::from_str("confirmed"),
            created_at: now.clone(),
            updated_at: now,
            supersedes_claim_id: supersedes,
            superseded_by_claim_id: None,
            sources,
        },
    )
}

/// `after` is `previous` as stored once `correction` supersedes it: the
/// same decision, now superseded, pointing at the correction, last updated
/// when the correction was created.
pub open spec fn superseded_as(
    previous: DecisionClaim,
    correction: DecisionClaim,
    after: DecisionClaim,
) -> bool {
    &&& after.id@ == previous.id@
    &&& after.project_id@ == previous.project_id@
    &&& after.title@ == previous.title@
    &&& after.rationale@ == previous.rationale@
    &&& after.confidence@ == previous.confidence@
    &&& after.author_type@ == previous.author_type@
    &&& after.created_at@ == previous.created_at@
    &&& after.supersedes_claim_id == previous.supersedes_claim_id
    &&& after.sources == previous.sources
    &&& after.status@ == "superseded"@
    &&& after.updated_at@ == correction.created_at@
    &&& after.superseded_by_claim_id matches Some(id) && id@ == correction.id@
}

/// The decision a correction supersedes, as it is stored afterwards.
pub fn superseded_version(previous: DecisionClaim, correction: &DecisionClaim) -> (r: DecisionClaim)
    ensures
        superseded_as(previous, *correction, r),
{
    DecisionClaim {
        status: String::from_str("superseded"),
        updated_at: correction.created_at.clone(),
        superseded_by_claim_id: Some(correction.id.clone()),
        ..previous
    }
}

/// The link from the superseded decision to its correction must change
/// exactly one stored decision: the current version in the project.
pub fn check_supersede_link(changed: usize) -> (r: Result<(), AuraError>)
    ensures
        changed == 1 ==> r is Ok,
        changed != 1 ==> (r matches Err(AuraError::Storage(m)) && m@
            == "Aura could not link the correction to the current local decision safely."@),
{
    if changed == 1 {
        Ok(())
    } else {
        Err(
            AuraError::Storage(
                String::from_str(
                    "Aura could not link the correction to the current local decision safely.",
                ),
            ),
        )
    }
}

/// A correction supersedes the decision it corrects, and the two point at
/// each other: the correction names the previous decision, and the previous
/// decision, stored afterwards, is superseded and names the correction.
pub proof fn lemma_correction_links_both_ways(
    previous: DecisionClaim,
    correction: DecisionClaim,
    after: DecisionClaim,
)
    requires
        correction.supersedes_claim_id matches Some(id) && id@ == previous.id@,
        superseded_as(previous, correction, after),
    ensures
        correction.supersedes_claim_id matches Some(id) && id@ == after.id@,
        after.superseded_by_claim_id matches Some(id) && id@ == correction.id@,
        after.status@ == "superseded"@,
{
}

/// The activity title and detail recorded for a decision: a correction
/// names the decision it supersedes.
pub fn decision_activity(title: &str, superseded_title: Option<&str>) -> (r: (String, String))
    ensures
        match superseded_title {
            Some(previous) => r.0@ == "Decision corrected locally"@ && r.1@ == "“"@ + (title@ + (
            "” now supersedes “"@ + (previous@ + "”."@))),
            None => r.0@ == "Decision saved locally"@ && r.1@ == "“"@ + (title@
                + "” was recorded as a user decision with explicit local provenance."@),
        },
{
    match superseded_title {
        Some(previous) => {
            let end = joined(previous, "”.");
            let middle = joined("” now supersedes “", end.as_str());
            let tail = joined(title, middle.as_str());
            (String::from_str("Decision corrected locally"), joined("“", tail.as_str()))
        },
        None => {
            let tail = joined(
                title,
                "” was recorded as a user decision with explicit local provenance.",
            );
            (String::from_str("Decision saved locally"), joined("“", tail.as_str()))
        },
    }
}

} // verus!
