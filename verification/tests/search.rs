use lific::models::{CreateProject, SearchQuery};
use lific::projects::create_project;
use lific::search::search;
use rusqlite::Connection;

const SCHEMA: &str = "
PRAGMA foreign_keys = ON;
CREATE TABLE users (
    id INTEGER PRIMARY KEY AUTOINCREMENT,
    username TEXT NOT NULL UNIQUE
);
CREATE TABLE projects (
    id INTEGER PRIMARY KEY AUTOINCREMENT,
    name TEXT NOT NULL,
    identifier TEXT NOT NULL UNIQUE,
    description TEXT NOT NULL DEFAULT '',
    emoji TEXT,
    lead_user_id INTEGER REFERENCES users(id) ON DELETE SET NULL,
    created_at TEXT NOT NULL DEFAULT (datetime('now')),
    updated_at TEXT NOT NULL DEFAULT (datetime('now'))
);
CREATE TABLE issues (
    id INTEGER PRIMARY KEY AUTOINCREMENT,
    project_id INTEGER NOT NULL REFERENCES projects(id) ON DELETE CASCADE,
    sequence INTEGER NOT NULL,
    title TEXT NOT NULL,
    description TEXT NOT NULL DEFAULT ''
);
CREATE TABLE pages (
    id INTEGER PRIMARY KEY AUTOINCREMENT,
    project_id INTEGER REFERENCES projects(id) ON DELETE CASCADE,
    sequence INTEGER NOT NULL,
    title TEXT NOT NULL,
    content TEXT NOT NULL DEFAULT ''
);
CREATE VIRTUAL TABLE search_index USING fts5(
    title, body, entity_type UNINDEXED, entity_id UNINDEXED, project_id UNINDEXED
);
";

fn test_db() -> Connection {
    let conn = Connection::open_in_memory().expect("test db");
    conn.execute_batch(SCHEMA).expect("schema");
    conn
}

fn seed_project(conn: &Connection, ident: &str) -> i64 {
    create_project(
        conn,
        &CreateProject {
            name: format!("Project {ident}"),
            identifier: ident.into(),
            description: String::new(),
            emoji: None,
            lead_user_id: None,
        },
    )
    .unwrap()
    .id
}

/// Files an issue: the next sequence number in its project, and an entry in
/// the search index.
fn seed_issue(conn: &Connection, project_id: i64, title: &str, description: &str) -> i64 {
    conn.execute(
        "INSERT INTO issues (project_id, sequence, title, description)
         VALUES (?1, (SELECT COUNT(*) + 1 FROM issues WHERE project_id = ?1), ?2, ?3)",
        (project_id, title, description),
    )
    .unwrap();
    let id = conn.last_insert_rowid();
    conn.execute(
        "INSERT INTO search_index (title, body, entity_type, entity_id, project_id)
         VALUES (?1, ?2, 'issue', ?3, ?4)",
        (title, description, id, project_id),
    )
    .unwrap();
    id
}

/// Files a page: the next sequence number among its siblings, and an entry in
/// the search index.
fn seed_page(conn: &Connection, project_id: Option<i64>, title: &str, content: &str) -> i64 {
    conn.execute(
        "INSERT INTO pages (project_id, sequence, title, content)
         VALUES (?1, (SELECT COUNT(*) + 1 FROM pages WHERE project_id IS ?1), ?2, ?3)",
        (project_id, title, content),
    )
    .unwrap();
    let id = conn.last_insert_rowid();
    conn.execute(
        "INSERT INTO search_index (title, body, entity_type, entity_id, project_id)
         VALUES (?1, ?2, 'page', ?3, ?4)",
        (title, content, id, project_id),
    )
    .unwrap();
    id
}

fn query(text: &str, project_id: Option<i64>) -> SearchQuery {
    SearchQuery { query: text.into(), project_id, limit: None }
}

#[test]
fn search_finds_issue_by_title() {
    let conn = test_db();
    let pid = seed_project(&conn, "TST");
    seed_issue(&conn, pid, "Implement authentication flow", "");

    let results = search(&conn, &query("authentication", None)).unwrap();
    assert!(!results.is_empty());
    assert_eq!(results[0].result_type, "issue");
    assert_eq!(results[0].identifier, Some("TST-1".into()));
}

#[test]
fn search_finds_page_by_content() {
    let conn = test_db();
    let pid = seed_project(&conn, "TST");
    seed_page(&conn, Some(pid), "Design Doc", "This covers the WebSocket protocol design");

    let results = search(&conn, &query("websocket", None)).unwrap();
    assert!(!results.is_empty());
    assert_eq!(results[0].result_type, "page");
    assert_eq!(results[0].identifier, Some("TST-DOC-1".into()));
}

#[test]
fn search_prefix_matching() {
    let conn = test_db();
    let pid = seed_project(&conn, "TST");
    seed_issue(&conn, pid, "Implement authentication system", "");

    // "auth" matches "authentication" through the prefix wildcard.
    let results = search(&conn, &query("auth", None)).unwrap();
    assert!(!results.is_empty());
}

#[test]
fn search_respects_project_filter() {
    let conn = test_db();
    let p1 = seed_project(&conn, "AAA");
    let p2 = seed_project(&conn, "BBB");
    seed_issue(&conn, p1, "Alpha feature", "");
    seed_issue(&conn, p2, "Beta feature", "");

    let results = search(&conn, &query("feature", Some(p1))).unwrap();
    assert_eq!(results.len(), 1);
    assert_eq!(results[0].identifier, Some("AAA-1".into()));
}

#[test]
fn search_empty_description_uses_title_snippet() {
    let conn = test_db();
    let pid = seed_project(&conn, "TST");
    seed_issue(&conn, pid, "Fix the rendering pipeline", "");

    let results = search(&conn, &query("rendering", None)).unwrap();
    assert!(!results.is_empty());
    // The snippet falls back to the title.
    assert!(!results[0].snippet.is_empty());
}

#[test]
fn search_workspace_page_and_quotes_and_limit() {
    let conn = test_db();
    let pid = seed_project(&conn, "TST");
    seed_page(&conn, None, "Handbook", "How we \"ship\" releases");
    for n in 0..3 {
        seed_issue(&conn, pid, &format!("Release checklist {n}"), "");
    }

    let results = search(&conn, &query("handbook", None)).unwrap();
    assert_eq!(results.len(), 1);
    assert_eq!(results[0].identifier, Some("DOC-1".into()));
    assert_eq!(results[0].project_id, None);

    // A word with a quote in it is searched for literally, not as syntax.
    let results = search(&conn, &query("\"ship\"", None)).unwrap();
    assert_eq!(results.len(), 1);

    let limited = SearchQuery { query: "release".into(), project_id: None, limit: Some(2) };
    assert_eq!(search(&conn, &limited).unwrap().len(), 2);
    assert_eq!(search(&conn, &query("release", None)).unwrap().len(), 4);
}
