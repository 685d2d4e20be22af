//! Projects: the rules that precede every project write. An archived
//! project is never changed again.
use crate::db::repositories::{optional_text, optional_text_of, required_text, text_view};
use crate::domain::project::{AuraError, Project, ProjectStatus};
use crate::ids::new_id;
use crate::text::{decimal_text, is_blank, joined, trimmed, utf8_len};
use crate::time::utc_timestamp;
use vstd::prelude::*;

verus! {

/// The longest project name, in bytes.
pub const PROJECT_NAME_LIMIT: usize = 120;

/// A request to create a project.
#[derive(Clone, Debug)]
pub struct CreateProject {
    pub name: String,
    pub goal: Option<String>,
    pub current_task: Option<String>,
    pub next_step: Option<String>,
}

/// A request to change a project; absent fields are kept.
#[derive(Clone, Debug)]
pub struct UpdateProject {
    pub name: Option<String>,
    pub goal: Option<String>,
    pub status: Option<ProjectStatus>,
    pub current_task: Option<String>,
    pub blocker: Option<String>,
    pub next_step: Option<String>,
}

/// One entry of a project's activity record.
#[derive(Clone, Debug, PartialEq, Eq)]
pub struct ActivityRecord {
    pub id: String,
    pub kind: String,
    pub title: String,
    pub detail: String,
    pub created_at: String,
}

/// The name a project is stored under, or why it is refused.
pub open spec fn project_name_ok(name: Seq<char>) -> bool {
    !is_blank(name) && utf8_len(trimmed(name)) <= PROJECT_NAME_LIMIT
}

/// The message a refused project name is reported with.
pub open spec fn project_name_problem(name: Seq<char>) -> Seq<char> {
    if is_blank(name) {
        "Project name"@ + " is required before Aura can save it locally."@
    } else {
        "Project name"@ + (" must be "@ + (decimal_text(PROJECT_NAME_LIMIT as nat)
            + " characters or fewer."@))
    }
}

/// The new project record for a creation request: a fresh identifier, the
/// trimmed name, the optional fields trimmed (blank ones absent), active,
/// with no blocker and not archived, created and updated now.
pub fn prepare_project(input: CreateProject) -> (r: Result<Project, AuraError>)
    ensures
        !project_name_ok(input.name@) ==> (r matches Err(e) && e.is_invalid_input_with(
            project_name_problem(input.name@),
        )),
        project_name_ok(input.name@) ==> (r matches Ok(project) && {
            &&& project.name@ == trimmed(input.name@)
            &&& text_view(project.goal) == optional_text_of(input.goal)
            &&& text_view(project.current_task) == optional_text_of(input.current_task)
            &&& text_view(project.next_step) == optional_text_of(input.next_step)
            &&& project.status == ProjectStatus::Active
            &&& project.blocker is None
            &&& project.archived_at is None
            &&& project.created_at@ == project.updated_at@
            &&& project.id@.len() == 36
        }),
{
    let name = required_text("Project name", input.name.as_str(), PROJECT_NAME_LIMIT)?;
    let now = utc_timestamp();
    Ok(
        Project {
            id: new_id(),
            name,
            goal: optional_text(input.goal),
            status: ProjectStatus::Active,
            current_task: optional_text(input.current_task),
            blocker: None,
            next_step: optional_text(input.next_step),
            created_at: now.clone(),
            updated_at: now,
            archived_at: None,
        },
    )
}

/// The activity detail recorded when a project is created.
pub fn project_created_detail(name: &str) -> (r: String)
    ensures
        r@ == name@ + " is now stored in Aura’s local workspace."@,
{
    joined(name, " is now stored in Aura’s local workspace.")
}

/// A field of an update: replaced (trimmed, blank meaning absent) when the
/// request carries it, kept otherwise.
pub open spec fn updated_field(existing: Option<String>, requested: Option<String>) -> Option<
    Seq<char>,
> {
    match requested {
        Some(_) => optional_text_of(requested),
        None => text_view(existing),
    }
}

fn update_field(existing: Option<String>, requested: Option<String>) -> (r: Option<String>)
    ensures
        text_view(r) == updated_field(existing, requested),
{
    match requested {
        Some(value) => optional_text(Some(value)),
        None => existing,
    }
}

/// Applies an update to a stored project. A missing project is not found;
/// an archived project cannot be changed; a new name must be valid. Other
/// fields are replaced only when the request carries them, and the update
/// time is now.
pub fn merge_project_update(existing: Option<Project>, input: UpdateProject) -> (r: Result<
    Project,
    AuraError,
>)
    ensures
        match existing {
            None => r matches Err(e) && e.is_not_found_with(
                "Aura cannot update a project that is not stored locally."@,
            ),
            Some(p) => if p.status == ProjectStatus::Archived {
                r matches Err(e) && e.is_invalid_input_with(
                    "Archived projects cannot be changed. Restore support is not available in Aura V0."@,
                )
            } else if input.name matches Some(n) && !project_name_ok(n@) {
                r matches Err(e) && e.is_invalid_input_with(project_name_problem(input.name->0@))
            } else {
                r matches Ok(q) && {
                    &&& q.id@ == p.id@
                    &&& q.name@ == (match input.name {
                        Some(n) => trimmed(n@),
                        None => p.name@,
                    })
                    &&& text_view(q.goal) == updated_field(p.goal, input.goal)
                    &&& text_view(q.current_task) == updated_field(
                        p.current_task,
                        input.current_task,
                    )
                    &&& text_view(q.blocker) == updated_field(p.blocker, input.blocker)
                    &&& text_view(q.next_step) == updated_field(p.next_step, input.next_step)
                    &&& q.status == (match input.status {
                        Some(s) => s,
                        None => p.status,
                    })
                    &&& q.created_at@ == p.created_at@
                    &&& text_view(q.archived_at) == text_view(p.archived_at)
                }
            },
        },
{
    let existing = match existing {
        Some(project) => project,
        None => {
            return Err(
                AuraError::NotFound(
                    String::from_str("Aura cannot update a project that is not stored locally."),
                ),
            );
        },
    };
    if existing.status == ProjectStatus::Archived {
        return Err(
            AuraError::InvalidInput(
                String::from_str(
                    "Archived projects cannot be changed. Restore support is not available in Aura V0.",
                ),
            ),
        );
    }
    let name = match input.name {
        Some(value) => required_text("Project name", value.as_str(), PROJECT_NAME_LIMIT)?,
        None => existing.name,
    };
    let status = match input.status {
        Some(s) => s,
        None => existing.status,
    };
    Ok(
        Project {
            id: existing.id,
            name,
            goal: update_field(existing.goal, input.goal),
            status,
            current_task: update_field(existing.current_task, input.current_task),
            blocker: update_field(existing.blocker, input.blocker),
            next_step: update_field(existing.next_step, input.next_step),
            created_at: existing.created_at,
            updated_at: utc_timestamp(),
            archived_at: existing.archived_at,
        },
    )
}

/// Whether archiving a stored project changes anything: a missing project
/// is not found, an archived one stays as it is (archiving is idempotent),
/// any other one is archived.
pub fn archive_decision(existing: Option<&Project>) -> (r: Result<bool, AuraError>)
    ensures
        match existing {
            None => r matches Err(e) && e.is_not_found_with(
                "Aura cannot archive a project that is not stored locally."@,
            ),
            Some(p) => r == Ok::<bool, AuraError>(p.status != ProjectStatus::Archived),
        },
{
    match existing {
        None => Err(
            AuraError::NotFound(
                String::from_str("Aura cannot archive a project that is not stored locally."),
            ),
        ),
        Some(project) => Ok(project.status != ProjectStatus::Archived),
    }
}

/// Whether a context marker may be added to a stored project: it must
/// exist and not be archived.
pub fn check_context_marker(existing: Option<&Project>) -> (r: Result<(), AuraError>)
    ensures
        match existing {
            None => r matches Err(e) && e.is_not_found_with(
                "Aura cannot add context to a project that is not stored locally."@,
            ),
            Some(p) => if p.status == ProjectStatus::Archived {
                r matches Err(e) && e.is_invalid_input_with(
                    "Aura cannot add context to an archived project."@,
                )
            } else {
                r is Ok
            },
        },
{
    match existing {
        None => Err(
            AuraError::NotFound(
                String::from_str(
                    "Aura cannot add context to a project that is not stored locally.",
                ),
            ),
        ),
        Some(project) => {
            if project.status == ProjectStatus::Archived {
                Err(
                    AuraError::InvalidInput(
                        String::from_str("Aura cannot add context to an archived project."),
                    ),
                )
            } else {
                Ok(())
            }
        },
    }
}

} // verus!
