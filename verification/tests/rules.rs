use lific::db::SqlValue;
use lific::error::LificError;
use lific::fts::build_fts_query;
use lific::identifier::{
    format_issue_identifier, format_project_page_identifier, format_workspace_page_identifier,
    validate_identifier,
};
use lific::models::{CreateProject, SearchQuery, UpdateProject};
use lific::db::{QueryRowError, SqlStatement};
use lific::projects::{
    build_delete_project, build_get_project, build_insert_project, build_list_projects,
    build_release, build_resolve_identifier, build_rollback, build_savepoint, build_update_plan,
    build_user_exists, deletion_result, user_check_result, UpdateStep, DELETE_PROJECT_SQL,
    GET_PROJECT_SQL, LIST_PROJECTS_SQL, RELEASE_SQL, RESOLVE_IDENTIFIER_SQL, ROLLBACK_SQL,
    SAVEPOINT_SQL, UPDATE_LEAD_SQL, UPDATE_NAME_SQL, USER_EXISTS_SQL,
};
use lific::search::{
    build_result_identifier, build_search_statement, SEARCH_ALL_CLAUSE, SEARCH_BASE_SQL,
    SEARCH_IN_PROJECT_CLAUSE,
};
use lific::text::{decimal_string, is_whitespace, split_whitespace, str_eq, unescape_text};

fn refusal(identifier: &str) -> Option<String> {
    match validate_identifier(identifier) {
        Ok(()) => None,
        Err(LificError::BadRequest(m)) => Some(m),
        Err(other) => panic!("unexpected error {other:?}"),
    }
}

#[test]
fn identifier_messages_follow_the_rule_order() {
    assert_eq!(refusal("").as_deref(), Some("identifier must not be empty"));
    assert_eq!(refusal("TOOLNG").as_deref(), Some("identifier must be 5 characters or fewer"));
    assert_eq!(refusal("toolong").as_deref(), Some("identifier must be 5 characters or fewer"));
    let grammar =
        "identifier must be uppercase letters/digits starting with a letter (e.g. LIF, PRO2)";
    for bad in ["lif", "A-B", "1AB", "AB c", "É", "🧪🧪"] {
        assert_eq!(refusal(bad).as_deref(), Some(grammar), "{bad:?}");
    }
    assert_eq!(
        refusal("DOC").as_deref(),
        Some("identifier 'DOC' is reserved for page identifiers")
    );
    for good in ["A", "LIF", "PRO2", "AB1C5", "DOCS", "DO"] {
        assert_eq!(refusal(good), None, "{good:?}");
    }
}

#[test]
fn decimal_string_matches_display() {
    for i in [0i64, 7, 10, 42, 99999, -1, -7, -10, i64::MAX, i64::MIN] {
        assert_eq!(decimal_string(i), i.to_string());
    }
}

#[test]
fn whitespace_matches_std() {
    for code in 0u32..=0x10FFFF {
        if let Some(c) = char::from_u32(code) {
            assert_eq!(is_whitespace(c), c.is_whitespace(), "U+{code:04X}");
        }
    }
}

#[test]
fn split_whitespace_matches_std() {
    for s in ["", "   ", "a", " a ", "auth flow", "\tx\u{3000}y\u{85}z  ", "a\u{a0}b", "ünï cödé"] {
        let expected: Vec<&str> = s.split_whitespace().collect();
        assert_eq!(split_whitespace(s), expected, "{s:?}");
    }
}

#[test]
fn fts_query_quotes_each_word_as_a_prefix_term() {
    assert_eq!(build_fts_query("auth"), "\"auth\"*");
    assert_eq!(build_fts_query("  auth   flow "), "\"auth\"* \"flow\"*");
    assert_eq!(build_fts_query("say \"hi\""), "\"say\"* \"\"\"hi\"\"\"*");
    assert_eq!(build_fts_query("a\"b"), "\"a\"\"b\"*");
    assert_eq!(build_fts_query(""), "");
    assert_eq!(build_fts_query(" \t\n"), "");
}

#[test]
fn unescape_replaces_line_breaks_and_tabs() {
    assert_eq!(unescape_text("line1\\nline2\\ttab"), "line1\nline2\ttab");
    assert_eq!(unescape_text("a\\rb"), "a\rb");
    assert_eq!(unescape_text("no escapes"), "no escapes");
    assert_eq!(unescape_text("keep \\x and \\"), "keep \\x and \\");
    assert_eq!(unescape_text("\\\\n"), "\\\n");
    assert_eq!(unescape_text(""), "");
}

#[test]
fn str_eq_compares_contents() {
    assert!(str_eq("issue", "issue"));
    assert!(!str_eq("issue", "issues"));
    assert!(!str_eq("page", "Page"));
    assert!(str_eq("", ""));
}

#[test]
fn record_identifiers() {
    assert_eq!(format_issue_identifier("LIF", 42), "LIF-42");
    assert_eq!(format_project_page_identifier("LIF", 1), "LIF-DOC-1");
    assert_eq!(format_workspace_page_identifier(3), "DOC-3");
    let issue = format_issue_identifier("AB1C5", 7);
    let (project, rest) = issue.split_once('-').unwrap();
    assert_eq!((project, rest), ("AB1C5", "7"));
    // The three kinds of identifier never coincide.
    assert_ne!(format_issue_identifier("DO", 1), format_workspace_page_identifier(1));
    assert_ne!(format_project_page_identifier("D", 1), format_workspace_page_identifier(1));
    assert_ne!(format_issue_identifier("LIF", -1), format_project_page_identifier("LIF", 1));
    assert_ne!(format_issue_identifier("LIF", 12), format_issue_identifier("LIF1", 2));
}

#[test]
fn result_identifiers_by_entity_type() {
    let p = Some("TST".to_string());
    assert_eq!(build_result_identifier("issue", &p, Some(1), None), Some("TST-1".into()));
    assert_eq!(build_result_identifier("issue", &None, Some(1), None), None);
    assert_eq!(build_result_identifier("issue", &p, None, Some(1)), None);
    assert_eq!(build_result_identifier("page", &p, None, Some(2)), Some("TST-DOC-2".into()));
    assert_eq!(build_result_identifier("page", &None, None, Some(2)), Some("DOC-2".into()));
    assert_eq!(build_result_identifier("page", &p, Some(2), None), None);
    assert_eq!(build_result_identifier("comment", &p, Some(1), Some(1)), None);
}

fn text(v: &SqlValue) -> &str {
    match v {
        SqlValue::Text(t) => t.as_str(),
        other => panic!("expected text, got {other:?}"),
    }
}

#[test]
fn search_statement_with_and_without_project() {
    let all = build_search_statement(&SearchQuery {
        query: "auth flow".into(),
        project_id: None,
        limit: None,
    });
    assert_eq!(all.sql, format!("{SEARCH_BASE_SQL}{SEARCH_ALL_CLAUSE}"));
    assert_eq!(all.params.len(), 2);
    assert_eq!(text(&all.params[0]), "\"auth\"* \"flow\"*");
    assert!(matches!(all.params[1], SqlValue::Integer(20)));

    let one = build_search_statement(&SearchQuery {
        query: "x".into(),
        project_id: Some(9),
        limit: Some(5),
    });
    assert_eq!(one.sql, format!("{SEARCH_BASE_SQL}{SEARCH_IN_PROJECT_CLAUSE}"));
    assert_eq!(one.params.len(), 3);
    assert_eq!(text(&one.params[0]), "\"x\"*");
    assert!(matches!(one.params[1], SqlValue::Integer(9)));
    assert!(matches!(one.params[2], SqlValue::Integer(5)));
}

#[test]
fn insert_statement_unescapes_the_description() {
    let stmt = build_insert_project(&CreateProject {
        name: "N".into(),
        identifier: "ID".into(),
        description: "a\\nb".into(),
        emoji: None,
        lead_user_id: Some(4),
    });
    assert_eq!(stmt.params.len(), 5);
    assert_eq!(text(&stmt.params[0]), "N");
    assert_eq!(text(&stmt.params[1]), "ID");
    assert_eq!(text(&stmt.params[2]), "a\nb");
    assert!(matches!(stmt.params[3], SqlValue::Null));
    assert!(matches!(stmt.params[4], SqlValue::Integer(4)));
}

#[test]
fn update_plan_orders_checks_before_writes() {
    let plan = build_update_plan(
        5,
        &UpdateProject {
            name: Some("N".into()),
            identifier: Some("NEW".into()),
            description: None,
            emoji: None,
            lead_user_id: Some(Some(8)),
        },
    );
    assert_eq!(plan.len(), 5);
    match &plan[0] {
        UpdateStep::Execute(s) => {
            assert_eq!(s.sql, UPDATE_NAME_SQL);
            assert_eq!(text(&s.params[0]), "N");
            assert!(matches!(s.params[1], SqlValue::Integer(5)));
        }
        other => panic!("{other:?}"),
    }
    assert!(matches!(&plan[1], UpdateStep::CheckIdentifier(i) if i == "NEW"));
    assert!(matches!(&plan[2], UpdateStep::Execute(_)));
    assert!(matches!(&plan[3], UpdateStep::CheckUser(8)));
    match &plan[4] {
        UpdateStep::Execute(s) => {
            assert_eq!(s.sql, UPDATE_LEAD_SQL);
            assert!(matches!(s.params[0], SqlValue::Integer(8)));
        }
        other => panic!("{other:?}"),
    }

    let clear = build_update_plan(
        5,
        &UpdateProject {
            name: None,
            identifier: None,
            description: None,
            emoji: Some(None),
            lead_user_id: Some(None),
        },
    );
    assert_eq!(clear.len(), 2);
    for step in &clear {
        match step {
            UpdateStep::Execute(s) => assert!(matches!(s.params[0], SqlValue::Null)),
            other => panic!("{other:?}"),
        }
    }
    let nothing = build_update_plan(
        5,
        &UpdateProject {
            name: None,
            identifier: None,
            description: None,
            emoji: None,
            lead_user_id: None,
        },
    );
    assert!(nothing.is_empty());
}

#[test]
fn deletion_outcomes() {
    match deletion_result(3, Ok(0)) {
        Err(LificError::NotFound(m)) => assert_eq!(m, "project 3 not found"),
        other => panic!("{other:?}"),
    }
    assert!(deletion_result(3, Ok(1)).is_ok());
}

fn integer_param(stmt: &SqlStatement) -> i64 {
    assert_eq!(stmt.params.len(), 1);
    match stmt.params[0] {
        SqlValue::Integer(i) => i,
        ref other => panic!("expected integer, got {other:?}"),
    }
}

#[test]
fn lookup_statements_carry_their_arguments() {
    let get = build_get_project(17);
    assert_eq!(get.sql, GET_PROJECT_SQL);
    assert_eq!(integer_param(&get), 17);
    let delete = build_delete_project(-2);
    assert_eq!(delete.sql, DELETE_PROJECT_SQL);
    assert_eq!(integer_param(&delete), -2);
    let user = build_user_exists(99999);
    assert_eq!(user.sql, USER_EXISTS_SQL);
    assert_eq!(integer_param(&user), 99999);
    let resolve = build_resolve_identifier("LIF");
    assert_eq!(resolve.sql, RESOLVE_IDENTIFIER_SQL);
    assert_eq!(resolve.params.len(), 1);
    assert_eq!(text(&resolve.params[0]), "LIF");
    for (stmt, sql) in [
        (build_list_projects(), LIST_PROJECTS_SQL),
        (build_savepoint(), SAVEPOINT_SQL),
        (build_release(), RELEASE_SQL),
        (build_rollback(), ROLLBACK_SQL),
    ] {
        assert_eq!(stmt.sql, sql);
        assert!(stmt.params.is_empty());
    }
}

#[test]
fn user_check_outcomes() {
    assert!(user_check_result(5, Ok(vec![])).is_ok());
    match user_check_result(99999, Err(QueryRowError::NoRows)) {
        Err(LificError::BadRequest(m)) => assert_eq!(m, "user 99999 not found"),
        other => panic!("{other:?}"),
    }
}
