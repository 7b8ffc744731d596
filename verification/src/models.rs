//! The records that the queries read and write.

use vstd::prelude::*;

verus! {

/// A project as stored.
#[derive(Debug)]
pub struct Project {
    pub id: i64,
    pub name: String,
    pub identifier: String,
    pub description: String,
    pub emoji: Option<String>,
    pub lead_user_id: Option<i64>,
    pub created_at: String,
    pub updated_at: String,
}

/// What a new project is made from.
#[derive(Debug)]
pub struct CreateProject {
    pub name: String,
    pub identifier: String,
    pub description: String,
    pub emoji: Option<String>,
    pub lead_user_id: Option<i64>,
}

/// A partial update of a project. An absent field (`None`) is left as it
/// is; for `emoji` and `lead_user_id`, `Some(None)` clears the field.
#[derive(Debug)]
pub struct UpdateProject {
    pub name: Option<String>,
    pub identifier: Option<String>,
    pub description: Option<String>,
    pub emoji: Option<Option<String>>,
    pub lead_user_id: Option<Option<i64>>,
}

/// A full-text search request.
#[derive(Debug)]
pub struct SearchQuery {
    pub query: String,
    pub project_id: Option<i64>,
    pub limit: Option<i64>,
}

/// One hit of a full-text search.
#[derive(Debug)]
pub struct SearchResult {
    pub result_type: String,
    pub id: i64,
    pub identifier: Option<String>,
    pub title: String,
    pub snippet: String,
    pub project_id: Option<i64>,
}

} // verus!
