//! Projects and the crate-wide error type.
use vstd::prelude::*;

verus! {

/// A local project record.
#[derive(Clone, Debug, PartialEq, Eq)]
pub struct Project {
    pub id: String,
    pub name: String,
    pub goal: Option<String>,
    pub status: ProjectStatus,
    pub current_task: Option<String>,
    pub blocker: Option<String>,
    pub next_step: Option<String>,
    pub created_at: String,
    pub updated_at: String,
    pub archived_at: Option<String>,
}

/// Lifecycle of a project.
#[derive(Clone, Copy, Debug, PartialEq, Eq, Structural)]
pub enum ProjectStatus {
    Active,
    Paused,
    Archived,
}

impl ProjectStatus {
    /// The stored spelling of a status.
    pub open spec fn spec_name(self) -> Seq<char> {
        match self {
            ProjectStatus::Active => "active"@,
            ProjectStatus::Paused => "paused"@,
            ProjectStatus::Archived => "archived"@,
        }
    }

    /// The human-facing label of a status.
    pub open spec fn spec_display_name(self) -> Seq<char> {
        match self {
            ProjectStatus::Active => "Active"@,
            ProjectStatus::Paused => "Paused"@,
            ProjectStatus::Archived => "Archived"@,
        }
    }

    /// The status a stored spelling denotes, if any.
    pub open spec fn spec_parse(value: Seq<char>) -> Option<ProjectStatus> {
        if value == "active"@ {
            Some(ProjectStatus::Active)
        } else if value == "paused"@ {
            Some(ProjectStatus::Paused)
        } else if value == "archived"@ {
            Some(ProjectStatus::Archived)
        } else {
            None
        }
    }

    pub fn as_str(&self) -> (r: &'static str)
        ensures
            r@ == self.spec_name(),
    {
        match self {
            ProjectStatus::Active => "active",
            ProjectStatus::Paused => "paused",
            ProjectStatus::Archived => "archived",
        }
    }

    pub fn from_store(value: &str) -> (r: Result<ProjectStatus, AuraError>)
        ensures
            match r {
                Ok(status) => ProjectStatus::spec_parse(value@) == Some(status),
                Err(e) => ProjectStatus::spec_parse(value@) is None && e.is_storage_with(
                    "Aura found a project with an unsupported local status."@,
                ),
            },
    {
        if crate::text::same_text(value, "active") {
            Ok(ProjectStatus::Active)
        } else if crate::text::same_text(value, "paused") {
            Ok(ProjectStatus::Paused)
        } else if crate::text::same_text(value, "archived") {
            Ok(ProjectStatus::Archived)
        } else {
            Err(AuraError::Storage(
                String::from_str("Aura found a project with an unsupported local status."),
            ))
        }
    }

    pub fn display_name(&self) -> (r: &'static str)
        ensures
            r@ == self.spec_display_name(),
    {
        match self {
            ProjectStatus::Active => "Active",
            ProjectStatus::Paused => "Paused",
            ProjectStatus::Archived => "Archived",
        }
    }
}

/// Reading a status back from its stored spelling gives the same status.
pub proof fn lemma_project_status_roundtrip(status: ProjectStatus)
    ensures
        ProjectStatus::spec_parse(status.spec_name()) == Some(status),
{
    reveal_strlit("active");
    reveal_strlit("paused");
    reveal_strlit("archived");
    assert("paused"@[0] != "active"@[0]);
    assert("archived"@.len() != "active"@.len());
    assert("archived"@.len() != "paused"@.len());
}

/// Errors the workspace reports, each with a user-facing message.
#[derive(Debug, PartialEq, Eq)]
pub enum AuraError {
    InvalidInput(String),
    NotFound(String),
    Privacy(String),
    Storage(String),
}

impl AuraError {
    pub open spec fn is_invalid_input_with(self, message: Seq<char>) -> bool {
        self matches AuraError::InvalidInput(m) && m@ == message
    }

    pub open spec fn is_not_found_with(self, message: Seq<char>) -> bool {
        self matches AuraError::NotFound(m) && m@ == message
    }

    pub open spec fn is_privacy_with(self, message: Seq<char>) -> bool {
        self matches AuraError::Privacy(m) && m@ == message
    }

    pub open spec fn is_storage_with(self, message: Seq<char>) -> bool {
        self matches AuraError::Storage(m) && m@ == message
    }

    /// The message carried by any variant.
    pub open spec fn spec_message(self) -> Seq<char> {
        match self {
            AuraError::InvalidInput(m) => m@,
            AuraError::NotFound(m) => m@,
            AuraError::Privacy(m) => m@,
            AuraError::Storage(m) => m@,
        }
    }

    /// The user-facing text of the error.
    pub fn message(&self) -> (r: String)
        ensures
            r@ == self.spec_message(),
    {
        match self {
            AuraError::InvalidInput(m) => m.clone(),
            AuraError::NotFound(m) => m.clone(),
            AuraError::Privacy(m) => m.clone(),
            AuraError::Storage(m) => m.clone(),
        }
    }
}

} // verus!
