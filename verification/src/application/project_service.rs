//! The project workspace as the overlay shows it: the project list, the
//! recent activity, and the intentional context markers.
use crate::db::repositories::projects::ActivityRecord;
use crate::domain::project::{AuraError, Project, ProjectStatus};
use vstd::prelude::*;

verus! {

/// The workspace summary the overlay opens with.
#[derive(Debug, Clone)]
pub struct WorkspaceSnapshot {
    pub active_project: String,
    pub continuity_note: String,
    pub next_step: String,
    pub privacy_mode: String,
    pub projects: Vec<ProjectListItem>,
    pub signals: Vec<WorkspaceSignal>,
}

/// One project in the list.
#[derive(Debug, Clone)]
pub struct ProjectListItem {
    pub id: String,
    pub name: String,
    pub status: String,
    pub signal: String,
    pub updated_at: String,
}

/// One recent activity entry.
#[derive(Debug, Clone)]
pub struct WorkspaceSignal {
    pub id: String,
    pub kind: String,
    pub title: String,
    pub detail: String,
    pub time: String,
}

/// An intentional context marker as recorded.
#[derive(Debug, Clone)]
pub struct CaptureMarker {
    pub project_id: String,
    pub captured_at: String,
    pub source: String,
}

/// The line a project is summarized by: its current task, else its next
/// step, else its goal.
pub open spec fn project_signal(project: Project) -> Seq<char> {
    match project.current_task {
        Some(t) => t@,
        None => match project.next_step {
            Some(n) => n@,
            None => match project.goal {
                Some(g) => g@,
                None => "No intentional context recorded yet"@,
            },
        },
    }
}

/// The list entry of a project.
pub fn project_list_item(project: &Project) -> (r: ProjectListItem)
    ensures
        r.id@ == project.id@,
        r.name@ == project.name@,
        r.status@ == project.status.spec_display_name(),
        r.signal@ == project_signal(*project),
        r.updated_at@ == project.updated_at@,
{
    let signal = match &project.current_task {
        Some(t) => t.clone(),
        None => match &project.next_step {
            Some(n) => n.clone(),
            None => match &project.goal {
                Some(g) => g.clone(),
                None => String::from_str("No intentional context recorded yet"),
            },
        },
    };
    ProjectListItem {
        id: project.id.clone(),
        name: project.name.clone(),
        status: String::from_str(project.status.display_name()),
        signal,
        updated_at: project.updated_at.clone(),
    }
}

/// The kind an activity entry is shown with: `project`, `context` and
/// `system` as they are, anything else as `system`.
pub open spec fn signal_kind(kind: Seq<char>) -> Seq<char> {
    if kind == "project"@ || kind == "context"@ || kind == "system"@ {
        kind
    } else {
        "system"@
    }
}

/// The signal of an activity entry.
pub fn workspace_signal(record: ActivityRecord) -> (r: WorkspaceSignal)
    ensures
        r.id@ == record.id@,
        r.kind@ == signal_kind(record.kind@),
        r.title@ == record.title@,
        r.detail@ == record.detail@,
        r.time@ == record.created_at@,
{
    signal_of(&record)
}

fn signal_of(record: &ActivityRecord) -> (r: WorkspaceSignal)
    ensures
        r.id@ == record.id@,
        r.kind@ == signal_kind(record.kind@),
        r.title@ == record.title@,
        r.detail@ == record.detail@,
        r.time@ == record.created_at@,
{
    let known = crate::text::same_text(record.kind.as_str(), "project")
        || crate::text::same_text(record.kind.as_str(), "context")
        || crate::text::same_text(record.kind.as_str(), "system");
    let kind = if known {
        record.kind.clone()
    } else {
        String::from_str("system")
    };
    WorkspaceSignal {
        id: record.id.clone(),
        kind,
        title: record.title.clone(),
        detail: record.detail.clone(),
        time: record.created_at.clone(),
    }
}

/// Parses an optional project status chosen in the renderer.
pub fn parse_project_status(value: Option<String>) -> (r: Result<Option<ProjectStatus>, AuraError>)
    ensures
        match value {
            None => r == Ok::<Option<ProjectStatus>, AuraError>(None),
            Some(v) => match ProjectStatus::spec_parse(v@) {
                Some(s) => r == Ok::<Option<ProjectStatus>, AuraError>(Some(s)),
                None => r matches Err(e) && e.is_invalid_input_with(
                    "Project status must be active, paused, or archived."@,
                ),
            },
        },
{
    match value {
        None => Ok(None),
        Some(v) => {
            if crate::text::same_text(v.as_str(), "active") {
                Ok(Some(ProjectStatus::Active))
            } else if crate::text::same_text(v.as_str(), "paused") {
                Ok(Some(ProjectStatus::Paused))
            } else if crate::text::same_text(v.as_str(), "archived") {
                Ok(Some(ProjectStatus::Archived))
            } else {
                Err(
                    AuraError::InvalidInput(
                        String::from_str("Project status must be active, paused, or archived."),
                    ),
                )
            }
        },
    }
}

/// Assembles the workspace summary from the listed projects (most recent
/// first), the privacy mode and the recent activity.
pub fn workspace_snapshot(
    projects: &Vec<Project>,
    privacy_mode: String,
    activity: Vec<ActivityRecord>,
) -> (r: WorkspaceSnapshot)
    ensures
        projects@.len() == 0 ==> r.active_project@ == "No local project selected"@,
        projects@.len() > 0 ==> r.active_project@ == projects@[0].name@,
        r.continuity_note@
            == "Aura uses only the local project workspace. No desktop capture, cloud sync, or AI provider is enabled."@,
        projects@.len() == 0 ==> r.next_step@
            == "Create a local project to begin an intentional continuity record."@,
        projects@.len() > 0 ==> r.next_step@
            == "Select a project and add an intentional context marker when you choose."@,
        r.privacy_mode@ == privacy_mode@,
        r.projects@.len() == projects@.len(),
        forall|i: int|
            0 <= i < projects@.len() ==> (#[trigger] r.projects@[i]).id@ == projects@[i].id@
                && r.projects@[i].signal@ == project_signal(projects@[i]),
        r.signals@.len() == activity@.len(),
        forall|i: int|
            0 <= i < activity@.len() ==> (#[trigger] r.signals@[i]).id@ == activity@[i].id@
                && r.signals@[i].kind@ == signal_kind(activity@[i].kind@),
{
    let mut items: Vec<ProjectListItem> = Vec::new();
    let mut i: usize = 0;
    while i < projects.len()
        invariant
            i <= projects@.len(),
            items@.len() == i,
            forall|j: int|
                0 <= j < i ==> (#[trigger] items@[j]).id@ == projects@[j].id@
                    && items@[j].signal@ == project_signal(projects@[j]),
        decreases projects.len() - i,
    {
        items.push(project_list_item(&projects[i]));
        i = i + 1;
    }
    let mut signals: Vec<WorkspaceSignal> = Vec::new();
    let mut k: usize = 0;
    while k < activity.len()
        invariant
            k <= activity@.len(),
            signals@.len() == k,
            forall|j: int|
                0 <= j < k ==> (#[trigger] signals@[j]).id@ == activity@[j].id@
                    && signals@[j].kind@ == signal_kind(activity@[j].kind@),
        decreases activity.len() - k,
    {
        signals.push(signal_of(&activity[k]));
        k = k + 1;
    }
    let active_project = if projects.len() > 0 {
        projects[0].name.clone()
    } else {
        String::from_str("No local project selected")
    };
    let next_step = if projects.len() == 0 {
        String::from_str("Create a local project to begin an intentional continuity record.")
    } else {
        String::from_str("Select a project and add an intentional context marker when you choose.")
    };
    WorkspaceSnapshot {
        active_project,
        continuity_note: String::from_str(
            "Aura uses only the local project workspace. No desktop capture, cloud sync, or AI provider is enabled.",
        ),
        next_step,
        privacy_mode,
        projects: items,
        signals,
    }
}

/// The marker recorded for an intentional context capture.
pub fn capture_marker(project_id: String, captured_at: String) -> (r: CaptureMarker)
    ensures
        r.project_id@ == project_id@,
        r.captured_at@ == captured_at@,
        r.source@ == "manual-context-marker"@,
{
    CaptureMarker { project_id, captured_at, source: String::from_str("manual-context-marker") }
}

} // verus!
