//! Privacy preferences and exclusion rules.
use crate::domain::capture::CaptureRetention;
use crate::domain::project::AuraError;
use vstd::prelude::*;

verus! {

/// Whether intentional capture is allowed.
#[derive(Clone, Copy, Debug, PartialEq, Eq, Structural)]
pub enum PrivacyMode {
    ManualOnly,
    Paused,
}

impl PrivacyMode {
    /// The stored spelling of the value.
    pub open spec fn spec_name(self) -> Seq<char> {
        match self {
            PrivacyMode::ManualOnly => "manual_only"@,
            PrivacyMode::Paused => "paused"@,
        }
    }


    /// The value a stored spelling denotes, if any.
    pub open spec fn spec_parse(value: Seq<char>) -> Option<PrivacyMode> {
        if value == "manual_only"@ {
            Some(PrivacyMode::ManualOnly)
        } else if value == "paused"@ {
            Some(PrivacyMode::Paused)
        } else {
            None
        }
    }


    pub fn as_str(&self) -> (r: &'static str)
        ensures
            r@ == self.spec_name(),
    {
        match self {
            PrivacyMode::ManualOnly => "manual_only",
            PrivacyMode::Paused => "paused",
        }
    }


    pub fn from_store(value: &str) -> (r: Result<PrivacyMode, AuraError>)
        ensures
            match r {
                Ok(v) => PrivacyMode::spec_parse(value@) == Some(v),
                Err(e) => PrivacyMode::spec_parse(value@) is None && e.is_storage_with(
                    "Aura found an unsupported local privacy mode."@,
                ),
            },
    {
        if crate::text::same_text(value, "manual_only") {
            Ok(PrivacyMode::ManualOnly)
        } else if crate::text::same_text(value, "paused") {
            Ok(PrivacyMode::Paused)
        } else {
            Err(AuraError::Storage(String::from_str("Aura found an unsupported local privacy mode.")))
        }
    }

}


/// Reading a value back from its stored spelling gives the same value.
pub proof fn lemma_privacy_mode_roundtrip(value: PrivacyMode)
    ensures
        PrivacyMode::spec_parse(value.spec_name()) == Some(value),
{
    reveal_strlit("manual_only");
    reveal_strlit("paused");
    assert("paused"@.len() != "manual_only"@.len());
}

/// What an exclusion rule names.
#[derive(Clone, Copy, Debug, PartialEq, Eq, Structural)]
pub enum ExclusionKind {
    Application,
    Domain,
    Project,
}

impl ExclusionKind {
    /// The stored spelling of the value.
    pub open spec fn spec_name(self) -> Seq<char> {
        match self {
            ExclusionKind::Application => "application"@,
            ExclusionKind::Domain => "domain"@,
            ExclusionKind::Project => "project"@,
        }
    }


    /// The value a stored spelling denotes, if any.
    pub open spec fn spec_parse(value: Seq<char>) -> Option<ExclusionKind> {
        if value == "application"@ {
            Some(ExclusionKind::Application)
        } else if value == "domain"@ {
            Some(ExclusionKind::Domain)
        } else if value == "project"@ {
            Some(ExclusionKind::Project)
        } else {
            None
        }
    }


    pub fn as_str(&self) -> (r: &'static str)
        ensures
            r@ == self.spec_name(),
    {
        match self {
            ExclusionKind::Application => "application",
            ExclusionKind::Domain => "domain",
            ExclusionKind::Project => "project",
        }
    }


    pub fn from_store(value: &str) -> (r: Result<ExclusionKind, AuraError>)
        ensures
            match r {
                Ok(v) => ExclusionKind::spec_parse(value@) == Some(v),
                Err(e) => ExclusionKind::spec_parse(value@) is None && e.is_storage_with(
                    "Aura found an unsupported local exclusion rule type."@,
                ),
            },
    {
        if crate::text::same_text(value, "application") {
            Ok(ExclusionKind::Application)
        } else if crate::text::same_text(value, "domain") {
            Ok(ExclusionKind::Domain)
        } else if crate::text::same_text(value, "project") {
            Ok(ExclusionKind::Project)
        } else {
            Err(AuraError::Storage(String::from_str("Aura found an unsupported local exclusion rule type.")))
        }
    }

}


/// Reading a value back from its stored spelling gives the same value.
pub proof fn lemma_exclusion_kind_roundtrip(value: ExclusionKind)
    ensures
        ExclusionKind::spec_parse(value.spec_name()) == Some(value),
{
    reveal_strlit("application");
    reveal_strlit("domain");
    reveal_strlit("project");
    assert("domain"@.len() != "application"@.len());
    assert("project"@.len() != "application"@.len());
    assert("project"@.len() != "domain"@.len());
}


/// A stored exclusion rule.
#[derive(Clone, Debug, PartialEq, Eq)]
pub struct ExclusionRule {
    pub id: String,
    pub kind: ExclusionKind,
    pub value: String,
    pub is_enabled: bool,
    pub created_at: String,
    pub updated_at: String,
}

/// The privacy preferences of the workspace.
#[derive(Clone, Debug, PartialEq, Eq)]
pub struct PrivacyPreferences {
    pub privacy_mode: PrivacyMode,
    pub default_capture_retention: CaptureRetention,
    pub exclusions: Vec<ExclusionRule>,
}

/// A request to change the privacy preferences.
#[derive(Debug)]
pub struct UpdatePrivacyPreferencesInput {
    pub privacy_mode: PrivacyMode,
    pub default_capture_retention: CaptureRetention,
}

/// A request to create an exclusion rule.
#[derive(Debug)]
pub struct CreateExclusionRuleInput {
    pub kind: ExclusionKind,
    pub value: String,
}

/// A request to enable or disable an exclusion rule.
#[derive(Debug)]
pub struct SetExclusionEnabledInput {
    pub is_enabled: bool,
}

} // verus!
