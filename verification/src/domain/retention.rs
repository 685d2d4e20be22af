//! Capture lifecycle states owned by the retention sweep.
use crate::domain::project::AuraError;
use vstd::prelude::*;

verus! {

/// Lifecycle state of a manual capture.
#[derive(Clone, Copy, Debug, PartialEq, Eq, Structural)]
pub enum LifecycleState {
    Active,
    Aged,
    Deleted,
}

impl LifecycleState {
    /// The stored spelling of the value.
    pub open spec fn spec_name(self) -> Seq<char> {
        match self {
            LifecycleState::Active => "active"@,
            LifecycleState::Aged => "aged"@,
            LifecycleState::Deleted => "deleted"@,
        }
    }


    /// The value a stored spelling denotes, if any.
    pub open spec fn spec_parse(value: Seq<char>) -> Option<LifecycleState> {
        if value == "active"@ {
            Some(LifecycleState::Active)
        } else if value == "aged"@ {
            Some(LifecycleState::Aged)
        } else if value == "deleted"@ {
            Some(LifecycleState::Deleted)
        } else {
            None
        }
    }


    pub fn as_str(&self) -> (r: &'static str)
        ensures
            r@ == self.spec_name(),
    {
        match self {
            LifecycleState::Active => "active",
            LifecycleState::Aged => "aged",
            LifecycleState::Deleted => "deleted",
        }
    }


    pub fn from_store(value: &str) -> (r: Result<LifecycleState, AuraError>)
        ensures
            match r {
                Ok(v) => LifecycleState::spec_parse(value@) == Some(v),
                Err(e) => LifecycleState::spec_parse(value@) is None && e.is_storage_with(
                    "Aura found an unsupported capture lifecycle state."@,
                ),
            },
    {
        if crate::text::same_text(value, "active") {
            Ok(LifecycleState::Active)
        } else if crate::text::same_text(value, "aged") {
            Ok(LifecycleState::Aged)
        } else if crate::text::same_text(value, "deleted") {
            Ok(LifecycleState::Deleted)
        } else {
            Err(AuraError::Storage(String::from_str("Aura found an unsupported capture lifecycle state.")))
        }
    }

}


/// Reading a value back from its stored spelling gives the same value.
pub proof fn lemma_lifecycle_state_roundtrip(value: LifecycleState)
    ensures
        LifecycleState::spec_parse(value.spec_name()) == Some(value),
{
    reveal_strlit("active");
    reveal_strlit("aged");
    reveal_strlit("deleted");
    assert("aged"@.len() != "active"@.len());
    assert("deleted"@.len() != "active"@.len());
    assert("deleted"@.len() != "aged"@.len());
}


/// Outcome of one retention-sweep pass. A pass never deletes anything; it
/// only surfaces aged, standard-classification captures for review.
#[derive(Clone, Debug, PartialEq, Eq)]
pub struct RetentionSweepResult {
    pub swept_at: String,
    pub captures_reviewed: u64,
    pub captures_aged_now: u64,
    pub captures_already_aged: u64,
    pub captures_protected: u64,
}

/// A capture the sweep surfaced for human review.
#[derive(Clone, Debug, PartialEq, Eq)]
pub struct ReviewableCapture {
    pub id: String,
    pub project_id: String,
    pub label: String,
    pub classification: String,
    pub created_at: String,
    pub aged_at: String,
    pub days_aged: i64,
}

} // verus!
