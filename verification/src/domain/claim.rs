//! User-authored decision claims and their provenance.
use crate::domain::project::AuraError;
use vstd::prelude::*;

verus! {

/// How confident the user is in a decision.
#[derive(Clone, Copy, Debug, PartialEq, Eq, Structural)]
pub enum ClaimConfidence {
    Low,
    Medium,
    High,
}

impl ClaimConfidence {
    /// The stored spelling of the value.
    pub open spec fn spec_name(self) -> Seq<char> {
        match self {
            ClaimConfidence::Low => "low"@,
            ClaimConfidence::Medium => "medium"@,
            ClaimConfidence::High => "high"@,
        }
    }


    /// The value a stored spelling denotes, if any.
    pub open spec fn spec_parse(value: Seq<char>) -> Option<ClaimConfidence> {
        if value == "low"@ {
            Some(ClaimConfidence::Low)
        } else if value == "medium"@ {
            Some(ClaimConfidence::Medium)
        } else if value == "high"@ {
            Some(ClaimConfidence::High)
        } else {
            None
        }
    }


    pub fn as_str(&self) -> (r: &'static str)
        ensures
            r@ == self.spec_name(),
    {
        match self {
            ClaimConfidence::Low => "low",
            ClaimConfidence::Medium => "medium",
            ClaimConfidence::High => "high",
        }
    }


    pub fn from_store(value: &str) -> (r: Result<ClaimConfidence, AuraError>)
        ensures
            match r {
                Ok(v) => ClaimConfidence::spec_parse(value@) == Some(v),
                Err(e) => ClaimConfidence::spec_parse(value@) is None && e.is_storage_with(
                    "Aura found a decision with an unsupported local confidence value."@,
                ),
            },
    {
        if crate::text::same_text(value, "low") {
            Ok(ClaimConfidence::Low)
        } else if crate::text::same_text(value, "medium") {
            Ok(ClaimConfidence::Medium)
        } else if crate::text::same_text(value, "high") {
            Ok(ClaimConfidence::High)
        } else {
            Err(AuraError::Storage(String::from_str("Aura found a decision with an unsupported local confidence value.")))
        }
    }

}


/// Reading a value back from its stored spelling gives the same value.
pub proof fn lemma_claim_confidence_roundtrip(value: ClaimConfidence)
    ensures
        ClaimConfidence::spec_parse(value.spec_name()) == Some(value),
{
    reveal_strlit("low");
    reveal_strlit("medium");
    reveal_strlit("high");
    assert("medium"@.len() != "low"@.len());
    assert("high"@.len() != "low"@.len());
    assert("high"@.len() != "medium"@.len());
}

/// Whether a decision is current or has been corrected.
#[derive(Clone, Copy, Debug, PartialEq, Eq, Structural)]
pub enum ClaimStatus {
    Confirmed,
    Superseded,
}

impl ClaimStatus {
    /// The stored spelling of the value.
    pub open spec fn spec_name(self) -> Seq<char> {
        match self {
            ClaimStatus::Confirmed => "confirmed"@,
            ClaimStatus::Superseded => "superseded"@,
        }
    }


    /// The value a stored spelling denotes, if any.
    pub open spec fn spec_parse(value: Seq<char>) -> Option<ClaimStatus> {
        if value == "confirmed"@ {
            Some(ClaimStatus::Confirmed)
        } else if value == "superseded"@ {
            Some(ClaimStatus::Superseded)
        } else {
            None
        }
    }


    pub fn as_str(&self) -> (r: &'static str)
        ensures
            r@ == self.spec_name(),
    {
        match self {
            ClaimStatus::Confirmed => "confirmed",
            ClaimStatus::Superseded => "superseded",
        }
    }


    pub fn from_store(value: &str) -> (r: Result<ClaimStatus, AuraError>)
        ensures
            match r {
                Ok(v) => ClaimStatus::spec_parse(value@) == Some(v),
                Err(e) => ClaimStatus::spec_parse(value@) is None && e.is_storage_with(
                    "Aura found a decision with an unsupported local lifecycle state."@,
                ),
            },
    {
        if crate::text::same_text(value, "confirmed") {
            Ok(ClaimStatus::Confirmed)
        } else if crate::text::same_text(value, "superseded") {
            Ok(ClaimStatus::Superseded)
        } else {
            Err(AuraError::Storage(String::from_str("Aura found a decision with an unsupported local lifecycle state.")))
        }
    }

}


/// Reading a value back from its stored spelling gives the same value.
pub proof fn lemma_claim_status_roundtrip(value: ClaimStatus)
    ensures
        ClaimStatus::spec_parse(value.spec_name()) == Some(value),
{
    reveal_strlit("confirmed");
    reveal_strlit("superseded");
    assert("superseded"@.len() != "confirmed"@.len());
}


/// One stated source or basis of a decision.
#[derive(Clone, Debug, PartialEq, Eq)]
pub struct ClaimSource {
    pub id: String,
    pub label: String,
    pub created_at: String,
}

/// A user-authored decision with its provenance. Corrections never edit a
/// claim: they supersede it with a new one.
#[derive(Clone, Debug, PartialEq, Eq)]
pub struct DecisionClaim {
    pub id: String,
    pub project_id: String,
    pub title: String,
    pub rationale: String,
    pub confidence: String,
    pub author_type: String,
    pub status: String,
    pub created_at: String,
    pub updated_at: String,
    pub supersedes_claim_id: Option<String>,
    pub superseded_by_claim_id: Option<String>,
    pub sources: Vec<ClaimSource>,
}

/// The short form of a decision shown in lists.
#[derive(Clone, Debug, PartialEq, Eq)]
pub struct DecisionSummary {
    pub id: String,
    pub title: String,
    pub confidence: String,
    pub status: String,
    pub created_at: String,
}

impl DecisionSummary {
    /// The summary of a claim: its identity, title, confidence, status and
    /// creation time.
    pub fn from_claim(value: &DecisionClaim) -> (r: DecisionSummary)
        ensures
            r.id@ == value.id@,
            r.title@ == value.title@,
            r.confidence@ == value.confidence@,
            r.status@ == value.status@,
            r.created_at@ == value.created_at@,
    {
        DecisionSummary {
            id: value.id.clone(),
            title: value.title.clone(),
            confidence: value.confidence.clone(),
            status: value.status.clone(),
            created_at: value.created_at.clone(),
        }
    }
}

} // verus!
