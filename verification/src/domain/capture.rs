//! Manual captures and their classification and retention.
use crate::domain::project::AuraError;
use vstd::prelude::*;

verus! {

/// The source form of a manual capture.
#[derive(Clone, Copy, Debug, PartialEq, Eq, Structural)]
pub enum CaptureKind {
    ManualNote,
    PastedText,
    Url,
}

impl CaptureKind {
    /// The stored spelling of the value.
    pub open spec fn spec_name(self) -> Seq<char> {
        match self {
            CaptureKind::ManualNote => "manual_note"@,
            CaptureKind::PastedText => "pasted_text"@,
            CaptureKind::Url => "url"@,
        }
    }


    /// The value a stored spelling denotes, if any.
    pub open spec fn spec_parse(value: Seq<char>) -> Option<CaptureKind> {
        if value == "manual_note"@ {
            Some(CaptureKind::ManualNote)
        } else if value == "pasted_text"@ {
            Some(CaptureKind::PastedText)
        } else if value == "url"@ {
            Some(CaptureKind::Url)
        } else {
            None
        }
    }


    pub fn as_str(&self) -> (r: &'static str)
        ensures
            r@ == self.spec_name(),
    {
        match self {
            CaptureKind::ManualNote => "manual_note",
            CaptureKind::PastedText => "pasted_text",
            CaptureKind::Url => "url",
        }
    }


    pub fn from_store(value: &str) -> (r: Result<CaptureKind, AuraError>)
        ensures
            match r {
                Ok(v) => CaptureKind::spec_parse(value@) == Some(v),
                Err(e) => CaptureKind::spec_parse(value@) is None && e.is_storage_with(
                    "Aura found an unsupported local capture type."@,
                ),
            },
    {
        if crate::text::same_text(value, "manual_note") {
            Ok(CaptureKind::ManualNote)
        } else if crate::text::same_text(value, "pasted_text") {
            Ok(CaptureKind::PastedText)
        } else if crate::text::same_text(value, "url") {
            Ok(CaptureKind::Url)
        } else {
            Err(AuraError::Storage(String::from_str("Aura found an unsupported local capture type.")))
        }
    }

}


/// Reading a value back from its stored spelling gives the same value.
pub proof fn lemma_capture_kind_roundtrip(value: CaptureKind)
    ensures
        CaptureKind::spec_parse(value.spec_name()) == Some(value),
{
    reveal_strlit("manual_note");
    reveal_strlit("pasted_text");
    reveal_strlit("url");
    assert("pasted_text"@[0] != "manual_note"@[0]);
    assert("url"@.len() != "manual_note"@.len());
    assert("url"@.len() != "pasted_text"@.len());
}

/// How sensitive a capture is.
#[derive(Clone, Copy, Debug, PartialEq, Eq, Structural)]
pub enum CaptureClassification {
    Standard,
    Sensitive,
}

impl CaptureClassification {
    /// The stored spelling of the value.
    pub open spec fn spec_name(self) -> Seq<char> {
        match self {
            CaptureClassification::Standard => "standard"@,
            CaptureClassification::Sensitive => "sensitive"@,
        }
    }


    /// The value a stored spelling denotes, if any.
    pub open spec fn spec_parse(value: Seq<char>) -> Option<CaptureClassification> {
        if value == "standard"@ {
            Some(CaptureClassification::Standard)
        } else if value == "sensitive"@ {
            Some(CaptureClassification::Sensitive)
        } else {
            None
        }
    }


    pub fn as_str(&self) -> (r: &'static str)
        ensures
            r@ == self.spec_name(),
    {
        match self {
            CaptureClassification::Standard => "standard",
            CaptureClassification::Sensitive => "sensitive",
        }
    }


    pub fn from_store(value: &str) -> (r: Result<CaptureClassification, AuraError>)
        ensures
            match r {
                Ok(v) => CaptureClassification::spec_parse(value@) == Some(v),
                Err(e) => CaptureClassification::spec_parse(value@) is None && e.is_storage_with(
                    "Aura found an unsupported local capture classification."@,
                ),
            },
    {
        if crate::text::same_text(value, "standard") {
            Ok(CaptureClassification::Standard)
        } else if crate::text::same_text(value, "sensitive") {
            Ok(CaptureClassification::Sensitive)
        } else {
            Err(AuraError::Storage(String::from_str("Aura found an unsupported local capture classification.")))
        }
    }

}


/// Reading a value back from its stored spelling gives the same value.
pub proof fn lemma_capture_classification_roundtrip(value: CaptureClassification)
    ensures
        CaptureClassification::spec_parse(value.spec_name()) == Some(value),
{
    reveal_strlit("standard");
    reveal_strlit("sensitive");
    assert("sensitive"@.len() != "standard"@.len());
}

/// How long a capture is kept before review.
#[derive(Clone, Copy, Debug, PartialEq, Eq, Structural)]
pub enum CaptureRetention {
    UntilDeleted,
    ReviewIn30Days,
}

impl CaptureRetention {
    /// The stored spelling of the value.
    pub open spec fn spec_name(self) -> Seq<char> {
        match self {
            CaptureRetention::UntilDeleted => "until_deleted"@,
            CaptureRetention::ReviewIn30Days => "review_in_30_days"@,
        }
    }


    /// The value a stored spelling denotes, if any.
    pub open spec fn spec_parse(value: Seq<char>) -> Option<CaptureRetention> {
        if value == "until_deleted"@ {
            Some(CaptureRetention::UntilDeleted)
        } else if value == "review_in_30_days"@ {
            Some(CaptureRetention::ReviewIn30Days)
        } else {
            None
        }
    }


    pub fn as_str(&self) -> (r: &'static str)
        ensures
            r@ == self.spec_name(),
    {
        match self {
            CaptureRetention::UntilDeleted => "until_deleted",
            CaptureRetention::ReviewIn30Days => "review_in_30_days",
        }
    }


    pub fn from_store(value: &str) -> (r: Result<CaptureRetention, AuraError>)
        ensures
            match r {
                Ok(v) => CaptureRetention::spec_parse(value@) == Some(v),
                Err(e) => CaptureRetention::spec_parse(value@) is None && e.is_storage_with(
                    "Aura found an unsupported local capture retention setting."@,
                ),
            },
    {
        if crate::text::same_text(value, "until_deleted") {
            Ok(CaptureRetention::UntilDeleted)
        } else if crate::text::same_text(value, "review_in_30_days") {
            Ok(CaptureRetention::ReviewIn30Days)
        } else {
            Err(AuraError::Storage(String::from_str("Aura found an unsupported local capture retention setting.")))
        }
    }

}


/// Reading a value back from its stored spelling gives the same value.
pub proof fn lemma_capture_retention_roundtrip(value: CaptureRetention)
    ensures
        CaptureRetention::spec_parse(value.spec_name()) == Some(value),
{
    reveal_strlit("until_deleted");
    reveal_strlit("review_in_30_days");
    assert("review_in_30_days"@.len() != "until_deleted"@.len());
}

/// A stored manual capture.
#[derive(Clone, Debug, PartialEq, Eq)]
pub struct CaptureRecord {
    pub id: String,
    pub project_id: String,
    pub kind: CaptureKind,
    pub label: String,
    pub content: String,
    pub classification: CaptureClassification,
    pub retention: CaptureRetention,
    pub created_at: String,
}

} // verus!
