//! Records of the migration workflow.
pub use crate::models::auth_config::AuthConfigStruct;
use crate::json::{find, lookup, JsonDocument, JsonDocumentView, JsonValue, JsonValueView};
use vstd::prelude::*;

verus! {

/// A tenant, as the platform lists it.
#[derive(Debug, Clone, PartialEq, Eq)]
pub struct Project {
    pub id: String,
    pub name: String,
    pub region: String,
    pub status: String,
}

/// The contents of a [`Project`].
pub struct ProjectView {
    pub id: Seq<char>,
    pub name: Seq<char>,
    pub region: Seq<char>,
    pub status: Seq<char>,
}

impl View for Project {
    type V = ProjectView;

    open spec fn view(&self) -> ProjectView {
        ProjectView { id: self.id@, name: self.name@, region: self.region@, status: self.status@ }
    }
}

/// The contents of a list of tenants.
pub open spec fn projects_view(projects: Seq<Project>) -> Seq<ProjectView> {
    projects.map_values(|p: Project| p@)
}

/// The tenant that a document describes: an object in which `id`, `name`,
/// `region` and `status` are strings. Other members are ignored.
pub open spec fn project_of(document: JsonDocumentView) -> Option<ProjectView> {
    match document {
        JsonDocumentView::Object(members) => match (
            lookup(members, "id"@),
            lookup(members, "name"@),
            lookup(members, "region"@),
            lookup(members, "status"@),
        ) {
            (
                Some(JsonValueView::Text(id)),
                Some(JsonValueView::Text(name)),
                Some(JsonValueView::Text(region)),
                Some(JsonValueView::Text(status)),
            ) => Some(ProjectView { id, name, region, status }),
            _ => None,
        },
        JsonDocumentView::Other => None,
    }
}

impl Project {
    /// The tenant that a document describes, if it describes one.
    pub fn from_document(document: &JsonDocument) -> (r: Option<Self>)
        ensures
            match r {
                Some(p) => project_of(document@) == Some(p@),
                None => project_of(document@) is None,
            },
    {
        let members = match document {
            JsonDocument::Object(members) => members,
            JsonDocument::Other => {
                return None;
            },
        };
        let id = match find(members, "id") {
            Some(JsonValue::Text(t)) => t.clone(),
            _ => {
                return None;
            },
        };
        let name = match find(members, "name") {
            Some(JsonValue::Text(t)) => t.clone(),
            _ => {
                return None;
            },
        };
        let region = match find(members, "region") {
            Some(JsonValue::Text(t)) => t.clone(),
            _ => {
                return None;
            },
        };
        let status = match find(members, "status") {
            Some(JsonValue::Text(t)) => t.clone(),
            _ => {
                return None;
            },
        };
        Some(Project { id, name, region, status })
    }
}

/// What differs between source and destination in one configuration
/// domain.
#[derive(Debug, Clone, PartialEq, Eq)]
pub struct ProjectDiffs {
    pub name: String,
    pub diffs: Vec<ProjectDiffEntry>,
}

/// One key whose value differs, with both values as text.
#[derive(Debug, Clone, PartialEq, Eq)]
pub struct ProjectDiffEntry {
    pub key: String,
    pub source_value: String,
    pub dest_value: String,
}

/// The contents of a [`ProjectDiffEntry`].
pub struct ProjectDiffEntryView {
    pub key: Seq<char>,
    pub source_value: Seq<char>,
    pub dest_value: Seq<char>,
}

impl View for ProjectDiffEntry {
    type V = ProjectDiffEntryView;

    open spec fn view(&self) -> ProjectDiffEntryView {
        ProjectDiffEntryView {
            key: self.key@,
            source_value: self.source_value@,
            dest_value: self.dest_value@,
        }
    }
}

/// The contents of a list of entries, in the order of the list.
pub open spec fn entries_view(entries: Seq<ProjectDiffEntry>) -> Seq<ProjectDiffEntryView> {
    entries.map_values(|e: ProjectDiffEntry| e@)
}

/// The contents of a [`ProjectDiffs`].
pub struct ProjectDiffsView {
    pub name: Seq<char>,
    pub diffs: Seq<ProjectDiffEntryView>,
}

impl View for ProjectDiffs {
    type V = ProjectDiffsView;

    open spec fn view(&self) -> ProjectDiffsView {
        ProjectDiffsView { name: self.name@, diffs: entries_view(self.diffs@) }
    }
}

/// An API key of a tenant.
#[derive(Debug)]
pub struct ApiKeyStruct {
    pub name: String,
    pub api_key: String,
    pub id: Option<String>,
}

/// The query of a migration request. Only `auth` is acted on; the other
/// flags are accepted and ignored.
#[derive(Debug)]
pub struct MigrateProjectStruct {
    pub dest_id: String,
    pub auth: bool,
    pub postgrest: bool,
    pub edge_functions: bool,
    pub secrets: bool,
    pub postgres: bool,
}

} // verus!
