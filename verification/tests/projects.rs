use lific::error::LificError;
use lific::models::{CreateProject, Project, UpdateProject};
use lific::projects::{
    create_project, delete_project, get_project, list_projects, resolve_project_identifier,
    update_project,
};
use rusqlite::Connection;

const SCHEMA: &str = "
PRAGMA foreign_keys = ON;
CREATE TABLE users (
    id INTEGER PRIMARY KEY AUTOINCREMENT,
    username TEXT NOT NULL UNIQUE,
    email TEXT NOT NULL UNIQUE,
    password_hash TEXT NOT NULL,
    display_name TEXT NOT NULL,
    is_admin INTEGER NOT NULL DEFAULT 0,
    is_bot INTEGER NOT NULL DEFAULT 0
);
CREATE TABLE projects (
    id INTEGER PRIMARY KEY AUTOINCREMENT,
    name TEXT NOT NULL,
    identifier TEXT NOT NULL UNIQUE,
    description TEXT NOT NULL DEFAULT '',
    emoji TEXT,
    lead_user_id INTEGER REFERENCES users(id) ON DELETE SET NULL,
    created_at TEXT NOT NULL DEFAULT (datetime('now')),
    updated_at TEXT NOT NULL DEFAULT (datetime('now'))
);
";

fn test_db() -> Connection {
    let conn = Connection::open_in_memory().expect("test db");
    conn.execute_batch(SCHEMA).expect("schema");
    conn
}

fn try_create(conn: &Connection, ident: &str) -> Result<Project, LificError> {
    create_project(
        conn,
        &CreateProject {
            name: format!("P {ident}"),
            identifier: ident.into(),
            description: String::new(),
            emoji: None,
            lead_user_id: None,
        },
    )
}

fn seed_user(conn: &Connection, username: &str) -> i64 {
    conn.execute(
        "INSERT INTO users (username, email, password_hash, display_name, is_admin, is_bot)
         VALUES (?1, ?2, 'x', ?1, 0, 0)",
        (username, format!("{username}@test.local")),
    )
    .unwrap();
    conn.last_insert_rowid()
}

#[test]
fn create_and_get_project() {
    let conn = test_db();
    let project = create_project(
        &conn,
        &CreateProject {
            name: "Test".into(),
            identifier: "TST".into(),
            description: "A test project".into(),
            emoji: Some("🧪".into()),
            lead_user_id: None,
        },
    )
    .unwrap();

    assert_eq!(project.name, "Test");
    assert_eq!(project.identifier, "TST");
    assert_eq!(project.description, "A test project");
    assert_eq!(project.emoji, Some("🧪".into()));

    let fetched = get_project(&conn, project.id).unwrap();
    assert_eq!(fetched.identifier, "TST");
}

#[test]
fn resolve_project_identifier_works() {
    let conn = test_db();
    create_project(
        &conn,
        &CreateProject {
            name: "Lific".into(),
            identifier: "LIF".into(),
            description: String::new(),
            emoji: None,
            lead_user_id: None,
        },
    )
    .unwrap();

    let id = resolve_project_identifier(&conn, "LIF").unwrap();
    assert!(id > 0);
}

#[test]
fn resolve_project_not_found() {
    let conn = test_db();
    let result = resolve_project_identifier(&conn, "NOPE");
    assert!(result.is_err());
}

#[test]
fn duplicate_identifier_rejected() {
    let conn = test_db();
    create_project(
        &conn,
        &CreateProject {
            name: "First".into(),
            identifier: "DUP".into(),
            description: String::new(),
            emoji: None,
            lead_user_id: None,
        },
    )
    .unwrap();

    let result = create_project(
        &conn,
        &CreateProject {
            name: "Second".into(),
            identifier: "DUP".into(),
            description: String::new(),
            emoji: None,
            lead_user_id: None,
        },
    );
    assert!(result.is_err());
}

#[test]
fn identifier_rejects_malformed_values() {
    let conn = test_db();

    // Empty, lowercase, hyphenated, leading digit, reserved page marker,
    // more than five characters (counted in chars, not bytes).
    for bad in ["", "lif", "A-B", "1AB", "DOC", "TOOLNG", "🧪🧪"] {
        let result = try_create(&conn, bad);
        assert!(
            matches!(result, Err(LificError::BadRequest(_))),
            "identifier {bad:?} must be rejected, got: {result:?}"
        );
    }
}

#[test]
fn identifier_accepts_uppercase_alphanumeric() {
    let conn = test_db();
    for good in ["A", "LIF", "PRO2", "AB1C5"] {
        assert!(try_create(&conn, good).is_ok(), "identifier {good:?} must be accepted");
    }
}

#[test]
fn update_rejects_malformed_identifier() {
    let conn = test_db();
    let project = try_create(&conn, "GOOD").unwrap();

    for bad in ["A-B", "DOC", "bad"] {
        let result = update_project(
            &conn,
            project.id,
            &UpdateProject {
                name: None,
                identifier: Some(bad.into()),
                description: None,
                emoji: None,
                lead_user_id: None,
            },
        );
        assert!(
            matches!(result, Err(LificError::BadRequest(_))),
            "identifier {bad:?} must be rejected on update, got: {result:?}"
        );
    }
    // Unchanged after the failed updates.
    assert_eq!(get_project(&conn, project.id).unwrap().identifier, "GOOD");
}

#[test]
fn update_project_fields() {
    let conn = test_db();
    let project = create_project(
        &conn,
        &CreateProject {
            name: "Old Name".into(),
            identifier: "OLD".into(),
            description: String::new(),
            emoji: None,
            lead_user_id: None,
        },
    )
    .unwrap();

    let updated = update_project(
        &conn,
        project.id,
        &UpdateProject {
            name: Some("New Name".into()),
            identifier: None,
            description: Some("Now with description".into()),
            emoji: None,
            lead_user_id: None,
        },
    )
    .unwrap();

    assert_eq!(updated.name, "New Name");
    assert_eq!(updated.identifier, "OLD"); // unchanged
    assert_eq!(updated.description, "Now with description");
}

#[test]
fn delete_project_removes_it() {
    let conn = test_db();
    let project = create_project(
        &conn,
        &CreateProject {
            name: "Doomed".into(),
            identifier: "DEL".into(),
            description: String::new(),
            emoji: None,
            lead_user_id: None,
        },
    )
    .unwrap();

    delete_project(&conn, project.id).unwrap();
    assert!(get_project(&conn, project.id).is_err());
}

#[test]
fn delete_project_not_found() {
    let conn = test_db();
    let result = delete_project(&conn, 99999);
    assert!(result.is_err());
}

#[test]
fn list_projects_returns_all() {
    let conn = test_db();
    for (name, ident) in [("Alpha", "A"), ("Beta", "B"), ("Gamma", "G")] {
        create_project(
            &conn,
            &CreateProject {
                name: name.into(),
                identifier: ident.into(),
                description: String::new(),
                emoji: None,
                lead_user_id: None,
            },
        )
        .unwrap();
    }

    let projects = list_projects(&conn).unwrap();
    assert_eq!(projects.len(), 3);
}

#[test]
fn unescape_in_description() {
    let conn = test_db();
    let project = create_project(
        &conn,
        &CreateProject {
            name: "Escaped".into(),
            identifier: "ESC".into(),
            description: "line1\\nline2\\ttab".into(),
            emoji: None,
            lead_user_id: None,
        },
    )
    .unwrap();

    assert_eq!(project.description, "line1\nline2\ttab");
}

#[test]
fn update_can_clear_emoji() {
    let conn = test_db();
    let project = create_project(
        &conn,
        &CreateProject {
            name: "Has Emoji".into(),
            identifier: "EMJ".into(),
            description: String::new(),
            emoji: Some("🧪".into()),
            lead_user_id: None,
        },
    )
    .unwrap();
    assert_eq!(project.emoji.as_deref(), Some("🧪"));

    let updated = update_project(
        &conn,
        project.id,
        &UpdateProject {
            name: None,
            identifier: None,
            description: None,
            emoji: Some(None), // explicit clear
            lead_user_id: None,
        },
    )
    .unwrap();
    assert_eq!(updated.emoji, None);
}

#[test]
fn update_can_clear_lead() {
    let conn = test_db();
    let uid = seed_user(&conn, "alice");
    let project = create_project(
        &conn,
        &CreateProject {
            name: "Has Lead".into(),
            identifier: "LDP".into(),
            description: String::new(),
            emoji: None,
            lead_user_id: Some(uid),
        },
    )
    .unwrap();
    assert_eq!(project.lead_user_id, Some(uid));

    let updated = update_project(
        &conn,
        project.id,
        &UpdateProject {
            name: None,
            identifier: None,
            description: None,
            emoji: None,
            lead_user_id: Some(None), // explicit clear
        },
    )
    .unwrap();
    assert_eq!(updated.lead_user_id, None);
}

#[test]
fn update_absent_field_preserves_value() {
    let conn = test_db();
    let uid = seed_user(&conn, "bob");
    let project = create_project(
        &conn,
        &CreateProject {
            name: "Keep".into(),
            identifier: "KEP".into(),
            description: String::new(),
            emoji: Some("🎯".into()),
            lead_user_id: Some(uid),
        },
    )
    .unwrap();

    // Update an unrelated field; emoji and lead survive.
    let updated = update_project(
        &conn,
        project.id,
        &UpdateProject {
            name: Some("Keep Renamed".into()),
            identifier: None,
            description: None,
            emoji: None,        // absent: preserve
            lead_user_id: None, // absent: preserve
        },
    )
    .unwrap();
    assert_eq!(updated.name, "Keep Renamed");
    assert_eq!(updated.emoji.as_deref(), Some("🎯"));
    assert_eq!(updated.lead_user_id, Some(uid));
}

#[test]
fn update_lead_to_nonexistent_user_fails_with_bad_request() {
    let conn = test_db();
    let project = create_project(
        &conn,
        &CreateProject {
            name: "Orphan".into(),
            identifier: "ORP".into(),
            description: String::new(),
            emoji: None,
            lead_user_id: None,
        },
    )
    .unwrap();

    // 99999 does not exist: a BadRequest, not a database error.
    let result = update_project(
        &conn,
        project.id,
        &UpdateProject {
            name: None,
            identifier: None,
            description: None,
            emoji: None,
            lead_user_id: Some(Some(99999)),
        },
    );
    match result {
        Err(LificError::BadRequest(msg)) => {
            assert!(msg.contains("99999"), "got: {msg}");
            assert!(msg.contains("not found"), "got: {msg}");
        }
        other => panic!("expected BadRequest, got: {other:?}"),
    }

    // And the project is unchanged (the savepoint was rolled back).
    let fetched = get_project(&conn, project.id).unwrap();
    assert_eq!(fetched.lead_user_id, None);
}

#[test]
fn failed_update_rolls_back_earlier_fields() {
    let conn = test_db();
    let project = try_create(&conn, "KEEP").unwrap();
    let result = update_project(
        &conn,
        project.id,
        &UpdateProject {
            name: Some("Renamed".into()),
            identifier: Some("bad".into()),
            description: None,
            emoji: None,
            lead_user_id: None,
        },
    );
    match result {
        Err(LificError::BadRequest(msg)) => assert_eq!(
            msg,
            "identifier must be uppercase letters/digits starting with a letter (e.g. LIF, PRO2)"
        ),
        other => panic!("expected BadRequest, got: {other:?}"),
    }
    let fetched = get_project(&conn, project.id).unwrap();
    assert_eq!(fetched.name, "P KEEP");
    assert_eq!(fetched.identifier, "KEEP");
}

#[test]
fn not_found_messages_name_the_project() {
    let conn = test_db();
    match get_project(&conn, 42) {
        Err(LificError::NotFound(msg)) => assert_eq!(msg, "project 42 not found"),
        other => panic!("expected NotFound, got: {other:?}"),
    }
    match resolve_project_identifier(&conn, "NOPE") {
        Err(LificError::NotFound(msg)) => assert_eq!(msg, "project 'NOPE' not found"),
        other => panic!("expected NotFound, got: {other:?}"),
    }
    match delete_project(&conn, -3) {
        Err(LificError::NotFound(msg)) => assert_eq!(msg, "project -3 not found"),
        other => panic!("expected NotFound, got: {other:?}"),
    }
    match update_project(
        &conn,
        7,
        &UpdateProject {
            name: Some("x".into()),
            identifier: None,
            description: None,
            emoji: None,
            lead_user_id: None,
        },
    ) {
        Err(LificError::NotFound(msg)) => assert_eq!(msg, "project 7 not found"),
        other => panic!("expected NotFound, got: {other:?}"),
    }
}

#[test]
fn list_projects_is_ordered_by_name() {
    let conn = test_db();
    for (name, ident) in [("Gamma", "G"), ("Alpha", "A"), ("Beta", "B")] {
        try_create(&conn, ident).unwrap();
        conn.execute("UPDATE projects SET name = ?1 WHERE identifier = ?2", (name, ident))
            .unwrap();
    }
    let names: Vec<String> = list_projects(&conn).unwrap().into_iter().map(|p| p.name).collect();
    assert_eq!(names, vec!["Alpha", "Beta", "Gamma"]);
}

#[test]
fn update_description_is_unescaped_and_lead_is_set() {
    let conn = test_db();
    let uid = seed_user(&conn, "carol");
    let project = try_create(&conn, "UPD").unwrap();
    let updated = update_project(
        &conn,
        project.id,
        &UpdateProject {
            name: None,
            identifier: Some("UPD2".into()),
            description: Some("a\\tb\\\\c".into()),
            emoji: Some(Some("🎯".into())),
            lead_user_id: Some(Some(uid)),
        },
    )
    .unwrap();
    assert_eq!(updated.identifier, "UPD2");
    assert_eq!(updated.description, "a\tb\\\\c");
    assert_eq!(updated.emoji.as_deref(), Some("🎯"));
    assert_eq!(updated.lead_user_id, Some(uid));
}

#[test]
fn database_errors_are_reported_as_such() {
    let conn = Connection::open_in_memory().unwrap();
    assert!(matches!(list_projects(&conn), Err(LificError::Database(_))));
    assert!(matches!(get_project(&conn, 1), Err(LificError::Database(_))));
    assert!(matches!(delete_project(&conn, 1), Err(LificError::Database(_))));
    assert!(matches!(try_create(&conn, "OK"), Err(LificError::Database(_))));
    assert!(matches!(try_create(&conn, "ok"), Err(LificError::BadRequest(_))));
}
