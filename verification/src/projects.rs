//! Project queries: listing, lookup by id or identifier, creation, partial
//! update and deletion.
//!
//! Each query builds its statement in verified code, hands it to SQLite
//! through the wrappers of `db`, and turns what comes back into a result
//! with a verified function that says exactly what each outcome yields.

use vstd::prelude::*;
use vstd::string::*;

use crate::db::{
    Cell, Column, ColumnKind, QueryRowError, ReadCell, SqlStatement, SqlStatementView, SqlValue,
    SqlValueView, cell_values, cells_have_kinds, column_kinds, execute, integer_of,
    last_insert_rowid, nullable_integer_of, nullable_text_of, pop_integer, pop_nullable_integer,
    pop_nullable_text, pop_text, prepare, query_map, query_row, row_read_as, sql_values_view,
    text_of,
};
use crate::error::LificError;
use crate::identifier::{identifier_error, is_valid_identifier, validate_identifier};
use crate::models::{CreateProject, Project, UpdateProject};
use crate::text::{decimal_int, decimal_string, unescape_text, unescaped};

verus! {

pub const LIST_PROJECTS_SQL: &'static str =
    "SELECT id, name, identifier, description, emoji, lead_user_id, created_at, updated_at
         FROM projects ORDER BY name";

pub const GET_PROJECT_SQL: &'static str =
    "SELECT id, name, identifier, description, emoji, lead_user_id, created_at, updated_at
         FROM projects WHERE id = ?1";

pub const RESOLVE_IDENTIFIER_SQL: &'static str = "SELECT id FROM projects WHERE identifier = ?1";

pub const INSERT_PROJECT_SQL: &'static str =
    "INSERT INTO projects (name, identifier, description, emoji, lead_user_id)
         VALUES (?1, ?2, ?3, ?4, ?5)";

pub const UPDATE_NAME_SQL: &'static str = "UPDATE projects SET name = ?1 WHERE id = ?2";

pub const UPDATE_IDENTIFIER_SQL: &'static str = "UPDATE projects SET identifier = ?1 WHERE id = ?2";

pub const UPDATE_DESCRIPTION_SQL: &'static str =
    "UPDATE projects SET description = ?1 WHERE id = ?2";

pub const UPDATE_EMOJI_SQL: &'static str = "UPDATE projects SET emoji = ?1 WHERE id = ?2";

pub const UPDATE_LEAD_SQL: &'static str = "UPDATE projects SET lead_user_id = ?1 WHERE id = ?2";

pub const USER_EXISTS_SQL: &'static str = "SELECT 1 FROM users WHERE id = ?1";

pub const SAVEPOINT_SQL: &'static str = "SAVEPOINT update_project";

pub const RELEASE_SQL: &'static str = "RELEASE update_project";

pub const ROLLBACK_SQL: &'static str = "ROLLBACK TO update_project";

pub const DELETE_PROJECT_SQL: &'static str = "DELETE FROM projects WHERE id = ?1";

/// The kinds of the columns of `LIST_PROJECTS_SQL` and `GET_PROJECT_SQL`.
pub open spec fn project_columns() -> Seq<ColumnKind> {
    seq![
        ColumnKind::Integer,
        ColumnKind::Text,
        ColumnKind::Text,
        ColumnKind::Text,
        ColumnKind::NullableText,
        ColumnKind::NullableInteger,
        ColumnKind::Text,
        ColumnKind::Text,
    ]
}

/// The columns of a project row, read left to right.
pub open spec fn project_read_order() -> Seq<Column> {
    seq![
        Column { index: 0, kind: ColumnKind::Integer },
        Column { index: 1, kind: ColumnKind::Text },
        Column { index: 2, kind: ColumnKind::Text },
        Column { index: 3, kind: ColumnKind::Text },
        Column { index: 4, kind: ColumnKind::NullableText },
        Column { index: 5, kind: ColumnKind::NullableInteger },
        Column { index: 6, kind: ColumnKind::Text },
        Column { index: 7, kind: ColumnKind::Text },
    ]
}

fn project_column_order() -> (columns: Vec<Column>)
    ensures
        columns@ == project_read_order(),
        column_kinds(columns@) == project_columns(),
{
    let columns = vec![
        Column { index: 0, kind: ColumnKind::Integer },
        Column { index: 1, kind: ColumnKind::Text },
        Column { index: 2, kind: ColumnKind::Text },
        Column { index: 3, kind: ColumnKind::Text },
        Column { index: 4, kind: ColumnKind::NullableText },
        Column { index: 5, kind: ColumnKind::NullableInteger },
        Column { index: 6, kind: ColumnKind::Text },
        Column { index: 7, kind: ColumnKind::Text },
    ];
    assert(columns@ =~= project_read_order());
    assert(column_kinds(columns@) =~= project_columns());
    columns
}

/// The project that a row of `project_columns()` describes, column by
/// column: id, name, identifier, description, emoji, lead user, creation
/// and update times.
pub open spec fn project_of_row(cells: Seq<Cell>) -> Project {
    Project {
        id: integer_of(cells[0]),
        name: text_of(cells[1]),
        identifier: text_of(cells[2]),
        description: text_of(cells[3]),
        emoji: nullable_text_of(cells[4]),
        lead_user_id: nullable_integer_of(cells[5]),
        created_at: text_of(cells[6]),
        updated_at: text_of(cells[7]),
    }
}

/// `p` is the project that `cells`, read in `project_read_order()`,
/// describe.
pub open spec fn project_read_from(p: Project, cells: Seq<ReadCell>) -> bool {
    &&& row_read_as(cells, project_read_order())
    &&& p == project_of_row(cell_values(cells))
}

/// `projects` are, one for one and in order, the projects that `rows`
/// describe, each row read in `project_read_order()`.
pub open spec fn projects_read_from(projects: Seq<Project>, rows: Seq<Seq<ReadCell>>) -> bool {
    &&& projects.len() == rows.len()
    &&& forall|i: int| 0 <= i < rows.len() ==> project_read_from(projects[i], #[trigger] rows[i])
}

/// In a project read from a row of `LIST_PROJECTS_SQL` or
/// `GET_PROJECT_SQL`, each field is the column of the statement that holds
/// it: id is column 0, name 1, identifier 2, description 3, emoji 4, lead
/// user 5, creation time 6 and update time 7.
pub proof fn law_project_fields_from_columns(p: Project, cells: Seq<ReadCell>)
    requires
        project_read_from(p, cells),
    ensures
        forall|j: int|
            0 <= j < cells.len() ==> {
                let c = #[trigger] cells[j];
                &&& c.column == 0 ==> p.id == integer_of(c.value)
                &&& c.column == 1 ==> p.name == text_of(c.value)
                &&& c.column == 2 ==> p.identifier == text_of(c.value)
                &&& c.column == 3 ==> p.description == text_of(c.value)
                &&& c.column == 4 ==> p.emoji == nullable_text_of(c.value)
                &&& c.column == 5 ==> p.lead_user_id == nullable_integer_of(c.value)
                &&& c.column == 6 ==> p.created_at == text_of(c.value)
                &&& c.column == 7 ==> p.updated_at == text_of(c.value)
            },
{
    let order = project_read_order();
    assert forall|j: int| 0 <= j < cells.len() implies cells[j].column == order[j].index
        && cell_values(cells)[j] == cells[j].value by {}
}

/// Builds the project that a row of `project_columns()` describes.
pub fn project_from_row(cells: Vec<ReadCell>) -> (p: Project)
    requires
        cells_have_kinds(cell_values(cells@), project_columns()),
    ensures
        p == project_of_row(cell_values(cells@)),
{
    let ghost row = cell_values(cells@);
    let ghost read = cells@;
    let mut cells = cells;
    assert(read[7].value == row[7]);
    assert(row[7].has_kind(ColumnKind::Text));
    let updated_at = pop_text(&mut cells);
    assert(cells@ =~= read.take(7));
    assert(read[6].value == row[6]);
    assert(row[6].has_kind(ColumnKind::Text));
    let created_at = pop_text(&mut cells);
    assert(cells@ =~= read.take(6));
    assert(read[5].value == row[5]);
    assert(row[5].has_kind(ColumnKind::NullableInteger));
    let lead_user_id = pop_nullable_integer(&mut cells);
    assert(cells@ =~= read.take(5));
    assert(read[4].value == row[4]);
    assert(row[4].has_kind(ColumnKind::NullableText));
    let emoji = pop_nullable_text(&mut cells);
    assert(cells@ =~= read.take(4));
    assert(read[3].value == row[3]);
    assert(row[3].has_kind(ColumnKind::Text));
    let description = pop_text(&mut cells);
    assert(cells@ =~= read.take(3));
    assert(read[2].value == row[2]);
    assert(row[2].has_kind(ColumnKind::Text));
    let identifier = pop_text(&mut cells);
    assert(cells@ =~= read.take(2));
    assert(read[1].value == row[1]);
    assert(row[1].has_kind(ColumnKind::Text));
    let name = pop_text(&mut cells);
    assert(cells@ =~= read.take(1));
    assert(read[0].value == row[0]);
    assert(row[0].has_kind(ColumnKind::Integer));
    let id = pop_integer(&mut cells);
    Project { id, name, identifier, description, emoji, lead_user_id, created_at, updated_at }
}

/// Builds the projects that rows of `project_columns()` describe, in order.
pub fn projects_from_rows(rows: Vec<Vec<ReadCell>>) -> (projects: Vec<Project>)
    requires
        forall|i: int|
            0 <= i < rows.len() ==> cells_have_kinds(
                cell_values(#[trigger] rows@[i]@),
                project_columns(),
            ),
    ensures
        projects@.len() == rows@.len(),
        forall|i: int|
            0 <= i < rows.len() ==> #[trigger] projects@[i] == project_of_row(
                cell_values(rows@[i]@),
            ),
{
    let ghost all = rows@;
    let mut rows = rows;
    let mut reversed: Vec<Project> = Vec::new();
    while rows.len() > 0
        invariant
            rows@ == all.take(rows@.len() as int),
            rows@.len() + reversed@.len() == all.len(),
            forall|i: int|
                0 <= i < all.len() ==> cells_have_kinds(
                    cell_values(#[trigger] all[i]@),
                    project_columns(),
                ),
            forall|j: int|
                0 <= j < reversed@.len() ==> #[trigger] reversed@[j] == project_of_row(
                    cell_values(all[all.len() - 1 - j]@),
                ),
        decreases rows@.len(),
    {
        let ghost n = rows@.len() as int;
        let row = rows.pop().unwrap();
        assert(row == all[n - 1]);
        assert(rows@ =~= all.take(n - 1));
        reversed.push(project_from_row(row));
    }
    let mut projects: Vec<Project> = Vec::new();
    while reversed.len() > 0
        invariant
            reversed@.len() + projects@.len() == all.len(),
            forall|j: int|
                0 <= j < reversed@.len() ==> #[trigger] reversed@[j] == project_of_row(
                    cell_values(all[all.len() - 1 - j]@),
                ),
            forall|i: int|
                0 <= i < projects@.len() ==> #[trigger] projects@[i] == project_of_row(
                    cell_values(all[i]@),
                ),
        decreases reversed@.len(),
    {
        let p = reversed.pop().unwrap();
        projects.push(p);
    }
    projects
}

/// `project 42 not found`
pub open spec fn project_id_not_found(id: int) -> Seq<char> {
    "project "@ + decimal_int(id) + " not found"@
}

/// `project 'LIF' not found`
pub open spec fn project_identifier_not_found(identifier: Seq<char>) -> Seq<char> {
    "project '"@ + identifier + "' not found"@
}

/// `user 7 not found`
pub open spec fn user_not_found(id: int) -> Seq<char> {
    "user "@ + decimal_int(id) + " not found"@
}

fn project_id_not_found_message(id: i64) -> (m: String)
    ensures
        m@ == project_id_not_found(id as int),
{
    let mut m = String::from_str("project ");
    let digits = decimal_string(id);
    m.append(digits.as_str());
    m.append(" not found");
    m
}

fn project_identifier_not_found_message(identifier: &str) -> (m: String)
    ensures
        m@ == project_identifier_not_found(identifier@),
{
    let mut m = String::from_str("project '");
    m.append(identifier);
    m.append("' not found");
    m
}

fn user_not_found_message(id: i64) -> (m: String)
    ensures
        m@ == user_not_found(id as int),
{
    let mut m = String::from_str("user ");
    let digits = decimal_string(id);
    m.append(digits.as_str());
    m.append(" not found");
    m
}

/// A statement without parameters.
pub open spec fn plain_statement(sql: Seq<char>) -> SqlStatementView {
    SqlStatementView { sql, params: seq![] }
}

/// A statement with one parameter.
pub open spec fn statement_with(sql: Seq<char>, param: SqlValueView) -> SqlStatementView {
    SqlStatementView { sql, params: seq![param] }
}

fn build_plain(sql: &'static str) -> (stmt: SqlStatement)
    ensures
        stmt@ == plain_statement(sql@),
{
    let stmt = SqlStatement { sql, params: Vec::new() };
    assert(stmt@.params =~= plain_statement(sql@).params);
    stmt
}

fn build_with(sql: &'static str, param: SqlValue) -> (stmt: SqlStatement)
    ensures
        stmt@ == statement_with(sql@, param@),
{
    let stmt = SqlStatement { sql, params: vec![param] };
    assert(stmt@.params =~= statement_with(sql@, param@).params);
    stmt
}

/// The lookup of project `id`.
pub fn build_get_project(id: i64) -> (stmt: SqlStatement)
    ensures
        stmt@ == statement_with(GET_PROJECT_SQL@, SqlValueView::Integer(id)),
{
    build_with(GET_PROJECT_SQL, SqlValue::Integer(id))
}

/// The lookup of the project with a given identifier.
pub fn build_resolve_identifier(identifier: &str) -> (stmt: SqlStatement)
    ensures
        stmt@ == statement_with(RESOLVE_IDENTIFIER_SQL@, SqlValueView::Text(identifier@)),
{
    build_with(RESOLVE_IDENTIFIER_SQL, SqlValue::Text(String::from_str(identifier)))
}

/// The listing of all projects.
pub fn build_list_projects() -> (stmt: SqlStatement)
    ensures
        stmt@ == plain_statement(LIST_PROJECTS_SQL@),
{
    build_plain(LIST_PROJECTS_SQL)
}

/// The deletion of project `id`.
pub fn build_delete_project(id: i64) -> (stmt: SqlStatement)
    ensures
        stmt@ == statement_with(DELETE_PROJECT_SQL@, SqlValueView::Integer(id)),
{
    build_with(DELETE_PROJECT_SQL, SqlValue::Integer(id))
}

/// The check that user `user` exists.
pub fn build_user_exists(user: i64) -> (stmt: SqlStatement)
    ensures
        stmt@ == statement_with(USER_EXISTS_SQL@, SqlValueView::Integer(user)),
{
    build_with(USER_EXISTS_SQL, SqlValue::Integer(user))
}

/// The savepoint a partial update runs in.
pub fn build_savepoint() -> (stmt: SqlStatement)
    ensures
        stmt@ == plain_statement(SAVEPOINT_SQL@),
{
    build_plain(SAVEPOINT_SQL)
}

/// The release of that savepoint.
pub fn build_release() -> (stmt: SqlStatement)
    ensures
        stmt@ == plain_statement(RELEASE_SQL@),
{
    build_plain(RELEASE_SQL)
}

/// The rollback to that savepoint.
pub fn build_rollback() -> (stmt: SqlStatement)
    ensures
        stmt@ == plain_statement(ROLLBACK_SQL@),
{
    build_plain(ROLLBACK_SQL)
}

/// What looking up project `id` yields for each answer of the database:
/// the project the row describes, `NotFound` when there is no row, the
/// database error otherwise.
pub fn project_lookup_result(id: i64, answer: Result<Vec<ReadCell>, QueryRowError>) -> (res:
    Result<Project, LificError>)
    requires
        answer matches Ok(cells) ==> cells_have_kinds(cell_values(cells@), project_columns()),
    ensures
        match answer {
            Ok(cells) => res == Ok::<Project, LificError>(project_of_row(cell_values(cells@))),
            Err(QueryRowError::NoRows) => res matches Err(LificError::NotFound(m)) && m@
                == project_id_not_found(id as int),
            Err(QueryRowError::Sqlite(e)) => res == Err::<Project, LificError>(
                LificError::Database(e),
            ),
        },
{
    match answer {
        Ok(cells) => Ok(project_from_row(cells)),
        Err(QueryRowError::NoRows) => Err(LificError::NotFound(project_id_not_found_message(id))),
        Err(QueryRowError::Sqlite(e)) => Err(LificError::Database(e)),
    }
}

/// Fetches project `id`. Whatever the database answers, the result is the
/// project, `NotFound` with the message `project {id} not found`, or a
/// database error.
pub fn get_project(conn: &rusqlite::Connection, id: i64) -> (res: Result<Project, LificError>)
    ensures
        res is Ok || res is Err && (res->Err_0 matches LificError::NotFound(m) && m@
            == project_id_not_found(id as int) || res->Err_0 is Database),
        res matches Ok(p) ==> exists|cells: Seq<ReadCell>| #[trigger] project_read_from(p, cells),
{
    let columns = project_column_order();
    let stmt = build_get_project(id);
    let answer = query_row(conn, stmt.sql, stmt.params, columns.as_slice());
    let ghost read = answer->Ok_0@;
    let res = project_lookup_result(id, answer);
    proof {
        if res is Ok {
            assert(project_read_from(res->Ok_0, read));
        }
    }
    res
}

/// What resolving a project identifier yields for each answer of the
/// database: the id in the row, `NotFound` when there is no row, the
/// database error otherwise.
pub fn identifier_lookup_result(
    identifier: &str,
    answer: Result<Vec<ReadCell>, QueryRowError>,
) -> (res: Result<i64, LificError>)
    requires
        answer matches Ok(cells) ==> cells_have_kinds(
            cell_values(cells@),
            seq![ColumnKind::Integer],
        ),
    ensures
        match answer {
            Ok(cells) => res == Ok::<i64, LificError>(integer_of(cells@[0].value)),
            Err(QueryRowError::NoRows) => res matches Err(LificError::NotFound(m)) && m@
                == project_identifier_not_found(identifier@),
            Err(QueryRowError::Sqlite(e)) => res == Err::<i64, LificError>(
                LificError::Database(e),
            ),
        },
{
    match answer {
        Ok(cells) => {
            assert(cell_values(cells@)[0] == cells@[0].value);
            assert(cells@[0].value.has_kind(ColumnKind::Integer));
            match &cells[0].value {
                Cell::Integer(i) => Ok(*i),
                _ => Ok(0),
            }
        },
        Err(QueryRowError::NoRows) => Err(
            LificError::NotFound(project_identifier_not_found_message(identifier)),
        ),
        Err(QueryRowError::Sqlite(e)) => Err(LificError::Database(e)),
    }
}

/// Finds the id of the project with the given identifier. Whatever the
/// database answers, the result is an id, `NotFound` with the message
/// `project '{identifier}' not found`, or a database error.
pub fn resolve_project_identifier(conn: &rusqlite::Connection, identifier: &str) -> (res: Result<
    i64,
    LificError,
>)
    ensures
        res is Ok || res is Err && (res->Err_0 matches LificError::NotFound(m) && m@
            == project_identifier_not_found(identifier@) || res->Err_0 is Database),
        res matches Ok(id) ==> exists|cells: Seq<ReadCell>|
            #[trigger] row_read_as(cells, seq![Column { index: 0, kind: ColumnKind::Integer }])
                && id == integer_of(cells[0].value),
{
    let columns = vec![Column { index: 0, kind: ColumnKind::Integer }];
    assert(column_kinds(columns@) =~= seq![ColumnKind::Integer]);
    assert(columns@ =~= seq![Column { index: 0, kind: ColumnKind::Integer }]);
    let stmt = build_resolve_identifier(identifier);
    let answer = query_row(conn, stmt.sql, stmt.params, columns.as_slice());
    let ghost read = answer->Ok_0@;
    let res = identifier_lookup_result(identifier, answer);
    proof {
        if res is Ok {
            assert(row_read_as(read, seq![Column { index: 0, kind: ColumnKind::Integer }]));
        }
    }
    res
}

/// Lists all projects, ordered by name (the order is SQLite's `ORDER BY
/// name`), with the statement it ran, `LIST_PROJECTS_SQL` with no
/// parameter. Whatever the database answers, the result is a database
/// error or the projects its rows describe, one for each row and in the
/// order of the rows, each row read in `project_read_order()`.
pub fn list_projects_run(conn: &rusqlite::Connection) -> (out: (
    Result<Vec<Project>, LificError>,
    Ghost<SqlStatementView>,
))
    ensures
        out.0 is Ok || out.0 matches Err(LificError::Database(_)),
        out.0 matches Ok(projects) ==> exists|rows: Seq<Seq<ReadCell>>|
            #[trigger] projects_read_from(projects@, rows),
        out.1@ == plain_statement(LIST_PROJECTS_SQL@),
{
    let stmt = build_list_projects();
    let ghost sent = stmt@;
    let mut prepared = match prepare(conn, stmt.sql) {
        Ok(prepared) => prepared,
        Err(e) => return (Err(LificError::Database(e)), Ghost(sent)),
    };
    let columns = project_column_order();
    match query_map(&mut prepared, stmt.params, columns.as_slice()) {
        Ok(rows) => {
            let ghost read = rows@.map_values(|r: Vec<ReadCell>| r@);
            let projects = projects_from_rows(rows);
            assert(projects_read_from(projects@, read)) by {
                assert forall|i: int| 0 <= i < read.len() implies project_read_from(
                    projects@[i],
                    #[trigger] read[i],
                ) by {
                    assert(read[i] == rows@[i]@);
                }
            }
            let res: Result<Vec<Project>, LificError> = Ok(projects);
            assert(projects_read_from(res->Ok_0@, read));
            (res, Ghost(sent))
        },
        Err(e) => (Err(LificError::Database(e)), Ghost(sent)),
    }
}

/// Lists all projects, ordered by name: `list_projects_run` without the
/// record of the statement. The result is a database error or the projects
/// the rows describe, one for each row and in the order of the rows.
pub fn list_projects(conn: &rusqlite::Connection) -> (res: Result<Vec<Project>, LificError>)
    ensures
        res is Ok || res matches Err(LificError::Database(_)),
        res matches Ok(projects) ==> exists|rows: Seq<Seq<ReadCell>>|
            #[trigger] projects_read_from(projects@, rows),
{
    let (res, Ghost(_sent)) = list_projects_run(conn);
    res
}

/// What deleting project `id` yields for each answer of the database:
/// `NotFound` when no row was deleted, success otherwise, or the database
/// error.
pub fn deletion_result(id: i64, answer: Result<usize, rusqlite::Error>) -> (res: Result<
    (),
    LificError,
>)
    ensures
        match answer {
            Ok(0) => res matches Err(LificError::NotFound(m)) && m@ == project_id_not_found(
                id as int,
            ),
            Ok(_) => res is Ok,
            Err(e) => res == Err::<(), LificError>(LificError::Database(e)),
        },
{
    match answer {
        Ok(changed) => {
            if changed == 0 {
                Err(LificError::NotFound(project_id_not_found_message(id)))
            } else {
                Ok(())
            }
        },
        Err(e) => Err(LificError::Database(e)),
    }
}

/// Deletes project `id`. Whatever the database answers, the result is
/// success, `NotFound` with the message `project {id} not found`, or a
/// database error.
pub fn delete_project(conn: &rusqlite::Connection, id: i64) -> (res: Result<(), LificError>)
    ensures
        res is Ok || res is Err && (res->Err_0 matches LificError::NotFound(m) && m@
            == project_id_not_found(id as int) || res->Err_0 is Database),
{
    let stmt = build_delete_project(id);
    let answer = execute(conn, stmt.sql, stmt.params);
    deletion_result(id, answer)
}

/// An optional text bound as a parameter: `NULL` when absent.
pub open spec fn nullable_text_param(v: Option<String>) -> SqlValueView {
    match v {
        Some(t) => SqlValueView::Text(t@),
        None => SqlValueView::Null,
    }
}

/// An optional integer bound as a parameter: `NULL` when absent.
pub open spec fn nullable_integer_param(v: Option<i64>) -> SqlValueView {
    match v {
        Some(i) => SqlValueView::Integer(i),
        None => SqlValueView::Null,
    }
}

fn nullable_text_value(v: &Option<String>) -> (p: SqlValue)
    ensures
        p@ == nullable_text_param(*v),
{
    match v {
        Some(t) => SqlValue::Text(t.clone()),
        None => SqlValue::Null,
    }
}

fn nullable_integer_value(v: Option<i64>) -> (p: SqlValue)
    ensures
        p@ == nullable_integer_param(v),
{
    match v {
        Some(i) => SqlValue::Integer(i),
        None => SqlValue::Null,
    }
}

/// The insert of a new project: name, identifier, the description with its
/// escape sequences replaced, emoji and lead user (`NULL` when absent).
pub open spec fn insert_project_statement(input: CreateProject) -> SqlStatementView {
    SqlStatementView {
        sql: INSERT_PROJECT_SQL@,
        params: seq![
            SqlValueView::Text(input.name@),
            SqlValueView::Text(input.identifier@),
            SqlValueView::Text(unescaped(input.description@)),
            nullable_text_param(input.emoji),
            nullable_integer_param(input.lead_user_id),
        ],
    }
}

/// Builds the insert of a new project.
pub fn build_insert_project(input: &CreateProject) -> (stmt: SqlStatement)
    ensures
        stmt@ == insert_project_statement(*input),
{
    let params = vec![
        SqlValue::Text(input.name.clone()),
        SqlValue::Text(input.identifier.clone()),
        SqlValue::Text(unescape_text(input.description.as_str())),
        nullable_text_value(&input.emoji),
        nullable_integer_value(input.lead_user_id),
    ];
    let stmt = SqlStatement { sql: INSERT_PROJECT_SQL, params };
    assert(stmt@.params =~= insert_project_statement(*input).params);
    stmt
}

/// Creates a project and returns it as stored, with the statements it
/// handed to SQLite. An identifier that breaks the identifier rules is
/// refused with `BadRequest` before the database is touched; otherwise the
/// insert of the input (its description unescaped) is sent, and the result
/// is the stored project, as the lookup of the new row read it, or a
/// database error (a duplicate identifier among them).
pub fn create_project_run(conn: &rusqlite::Connection, input: &CreateProject) -> (out: (
    Result<Project, LificError>,
    Ghost<Seq<SqlStatementView>>,
))
    ensures
        match identifier_error(input.identifier@) {
            Some(msg) => out.0 matches Err(LificError::BadRequest(m)) && m@ == msg,
            None => out.0 is Ok || out.0 is Err && (out.0->Err_0 is Database || out.0->Err_0 is NotFound),
        },
        out.0 matches Ok(p) ==> exists|cells: Seq<ReadCell>| #[trigger] project_read_from(p, cells),
        is_valid_identifier(input.identifier@) ==> out.1@ == seq![insert_project_statement(*input)],
        !is_valid_identifier(input.identifier@) ==> out.1@ == Seq::<SqlStatementView>::empty(),
{
    match validate_identifier(input.identifier.as_str()) {
        Ok(()) => {},
        Err(e) => return (Err(e), Ghost(Seq::empty())),
    }
    let stmt = build_insert_project(input);
    let ghost sent = seq![stmt@];
    match execute(conn, stmt.sql, stmt.params) {
        Ok(_) => {},
        Err(e) => return (Err(LificError::Database(e)), Ghost(sent)),
    }
    let id: i64 = last_insert_rowid(conn);
    (get_project(conn, id), Ghost(sent))
}

/// Creates a project and returns it as stored: `create_project_run`
/// without the record of the statements sent. An identifier that breaks
/// the identifier rules is refused with `BadRequest` before the database is
/// touched; otherwise the result is the stored project or a database error
/// (a duplicate identifier among them).
pub fn create_project(conn: &rusqlite::Connection, input: &CreateProject) -> (res: Result<
    Project,
    LificError,
>)
    ensures
        match identifier_error(input.identifier@) {
            Some(msg) => res matches Err(LificError::BadRequest(m)) && m@ == msg,
            None => res is Ok || res is Err && (res->Err_0 is Database || res->Err_0 is NotFound),
        },
        res matches Ok(p) ==> exists|cells: Seq<ReadCell>| #[trigger] project_read_from(p, cells),
{
    let (res, Ghost(_sent)) = create_project_run(conn, input);
    res
}

/// One step of a partial update.
#[derive(Debug)]
pub enum UpdateStep {
    /// Run a statement.
    Execute(SqlStatement),
    /// Refuse the update unless the identifier follows the identifier rules.
    CheckIdentifier(String),
    /// Refuse the update unless the user exists.
    CheckUser(i64),
}

pub enum UpdateStepView {
    Execute(SqlStatementView),
    CheckIdentifier(Seq<char>),
    CheckUser(i64),
}

impl View for UpdateStep {
    type V = UpdateStepView;

    open spec fn view(&self) -> UpdateStepView {
        match self {
            UpdateStep::Execute(s) => UpdateStepView::Execute(s@),
            UpdateStep::CheckIdentifier(i) => UpdateStepView::CheckIdentifier(i@),
            UpdateStep::CheckUser(u) => UpdateStepView::CheckUser(*u),
        }
    }
}

pub open spec fn update_steps_view(steps: Seq<UpdateStep>) -> Seq<UpdateStepView> {
    steps.map_values(|s: UpdateStep| s@)
}

/// The statement that sets, in the row of project `id`, the column that
/// the update statement `sql` writes to `value`.
pub open spec fn column_write(sql: Seq<char>, value: SqlValueView, id: i64) -> SqlStatementView {
    SqlStatementView { sql, params: seq![value, SqlValueView::Integer(id)] }
}

pub open spec fn set_column(sql: Seq<char>, value: SqlValueView, id: i64) -> UpdateStepView {
    UpdateStepView::Execute(column_write(sql, value, id))
}

pub open spec fn name_steps(id: i64, name: Option<String>) -> Seq<UpdateStepView> {
    match name {
        Some(n) => seq![set_column(UPDATE_NAME_SQL@, SqlValueView::Text(n@), id)],
        None => seq![],
    }
}

pub open spec fn identifier_steps(id: i64, identifier: Option<String>) -> Seq<UpdateStepView> {
    match identifier {
        Some(i) => seq![
            UpdateStepView::CheckIdentifier(i@),
            set_column(UPDATE_IDENTIFIER_SQL@, SqlValueView::Text(i@), id),
        ],
        None => seq![],
    }
}

pub open spec fn description_steps(id: i64, description: Option<String>) -> Seq<UpdateStepView> {
    match description {
        Some(d) => seq![
            set_column(UPDATE_DESCRIPTION_SQL@, SqlValueView::Text(unescaped(d@)), id),
        ],
        None => seq![],
    }
}

pub open spec fn emoji_steps(id: i64, emoji: Option<Option<String>>) -> Seq<UpdateStepView> {
    match emoji {
        Some(e) => seq![set_column(UPDATE_EMOJI_SQL@, nullable_text_param(e), id)],
        None => seq![],
    }
}

pub open spec fn lead_steps(id: i64, lead: Option<Option<i64>>) -> Seq<UpdateStepView> {
    match lead {
        Some(Some(u)) => seq![
            UpdateStepView::CheckUser(u),
            set_column(UPDATE_LEAD_SQL@, SqlValueView::Integer(u), id),
        ],
        Some(None) => seq![set_column(UPDATE_LEAD_SQL@, SqlValueView::Null, id)],
        None => seq![],
    }
}

/// The steps of a partial update of project `id`, in order: name, then
/// identifier (checked first), description (escape sequences replaced),
/// emoji, lead user (checked to exist first when set). An absent field
/// contributes no step; `Some(None)` sets the column to `NULL`.
pub open spec fn update_plan(id: i64, input: UpdateProject) -> Seq<UpdateStepView> {
    name_steps(id, input.name) + identifier_steps(id, input.identifier) + description_steps(
        id,
        input.description,
    ) + emoji_steps(id, input.emoji) + lead_steps(id, input.lead_user_id)
}

fn set_column_step(sql: &'static str, value: SqlValue, id: i64) -> (step: UpdateStep)
    ensures
        step@ == set_column(sql@, value@, id),
{
    let step = UpdateStep::Execute(
        SqlStatement { sql, params: vec![value, SqlValue::Integer(id)] },
    );
    assert(step@ == set_column(sql@, value@, id)) by {
        assert(sql_values_view(seq![value, SqlValue::Integer(id)]) =~= seq![
            value@,
            SqlValueView::Integer(id),
        ]);
    }
    step
}

fn push_step(steps: &mut Vec<UpdateStep>, step: UpdateStep)
    ensures
        update_steps_view(final(steps)@) == update_steps_view(old(steps)@).push(step@),
{
    steps.push(step);
    assert(update_steps_view(steps@) =~= update_steps_view(old(steps)@).push(step@));
}

/// Builds the steps of a partial update of project `id`.
pub fn build_update_plan(id: i64, input: &UpdateProject) -> (steps: Vec<UpdateStep>)
    ensures
        update_steps_view(steps@) == update_plan(id, *input),
{
    let mut steps: Vec<UpdateStep> = Vec::new();
    if let Some(name) = &input.name {
        push_step(&mut steps, set_column_step(UPDATE_NAME_SQL, SqlValue::Text(name.clone()), id));
    }
    assert(update_steps_view(steps@) =~= name_steps(id, input.name));
    if let Some(identifier) = &input.identifier {
        push_step(&mut steps, UpdateStep::CheckIdentifier(identifier.clone()));
        push_step(
            &mut steps,
            set_column_step(UPDATE_IDENTIFIER_SQL, SqlValue::Text(identifier.clone()), id),
        );
    }
    assert(update_steps_view(steps@) =~= name_steps(id, input.name) + identifier_steps(
        id,
        input.identifier,
    ));
    if let Some(description) = &input.description {
        push_step(
            &mut steps,
            set_column_step(
                UPDATE_DESCRIPTION_SQL,
                SqlValue::Text(unescape_text(description.as_str())),
                id,
            ),
        );
    }
    assert(update_steps_view(steps@) =~= name_steps(id, input.name) + identifier_steps(
        id,
        input.identifier,
    ) + description_steps(id, input.description));
    if let Some(emoji) = &input.emoji {
        push_step(&mut steps, set_column_step(UPDATE_EMOJI_SQL, nullable_text_value(emoji), id));
    }
    assert(update_steps_view(steps@) =~= name_steps(id, input.name) + identifier_steps(
        id,
        input.identifier,
    ) + description_steps(id, input.description) + emoji_steps(id, input.emoji));
    if let Some(lead) = input.lead_user_id {
        if let Some(user) = lead {
            push_step(&mut steps, UpdateStep::CheckUser(user));
        }
        push_step(&mut steps, set_column_step(UPDATE_LEAD_SQL, nullable_integer_value(lead), id));
    }
    assert(update_steps_view(steps@) =~= update_plan(id, *input));
    steps
}

/// A step that refuses the update with message `m` for this reason.
pub open spec fn refusal_explained(step: UpdateStepView, m: Seq<char>) -> bool {
    match step {
        UpdateStepView::CheckIdentifier(i) => identifier_error(i) == Some(m),
        UpdateStepView::CheckUser(u) => m == user_not_found(u as int),
        _ => false,
    }
}

/// Every identifier the plan checks follows the identifier rules.
pub open spec fn identifier_checks_pass(plan: Seq<UpdateStepView>) -> bool {
    forall|k: int|
        0 <= k < plan.len() ==> (#[trigger] plan[k] matches UpdateStepView::CheckIdentifier(i)
            ==> is_valid_identifier(i))
}

/// Every identifier checked before step `j` follows the identifier rules:
/// the update reaches step `j` only then.
pub open spec fn checks_pass_before(plan: Seq<UpdateStepView>, j: int) -> bool {
    forall|k: int|
        0 <= k < j ==> (#[trigger] plan[k] matches UpdateStepView::CheckIdentifier(i)
            ==> is_valid_identifier(i))
}

/// What the check that lead user `user` exists yields for each answer of
/// the database: success when a row comes back, `BadRequest` with the
/// message `user {user} not found` when none does, the database error
/// otherwise.
pub fn user_check_result(user: i64, answer: Result<Vec<ReadCell>, QueryRowError>) -> (res:
    Result<(), LificError>)
    ensures
        match answer {
            Ok(_) => res is Ok,
            Err(QueryRowError::NoRows) => res matches Err(LificError::BadRequest(m)) && m@
                == user_not_found(user as int),
            Err(QueryRowError::Sqlite(e)) => res == Err::<(), LificError>(LificError::Database(e)),
        },
{
    match answer {
        Ok(_) => Ok(()),
        Err(QueryRowError::NoRows) => Err(LificError::BadRequest(user_not_found_message(user))),
        Err(QueryRowError::Sqlite(e)) => Err(LificError::Database(e)),
    }
}

/// The statements a run of steps hands to SQLite, in order: those of its
/// `Execute` steps.
pub open spec fn sent_statements(steps: Seq<UpdateStepView>) -> Seq<SqlStatementView>
    decreases steps.len(),
{
    if steps.len() == 0 {
        seq![]
    } else {
        let before = sent_statements(steps.drop_last());
        match steps.last() {
            UpdateStepView::Execute(s) => before.push(s),
            _ => before,
        }
    }
}

/// The steps a run that completed `completed` steps has started: those it
/// completed, and the step it stopped at, if any.
pub open spec fn started_steps(plan: Seq<UpdateStepView>, completed: int) -> Seq<UpdateStepView> {
    if completed < plan.len() {
        plan.take(completed + 1)
    } else {
        plan
    }
}

/// What a run of a partial update did: how many steps it completed, and
/// the statements it handed to SQLite, in order.
pub struct UpdateRun {
    pub completed: int,
    pub sent: Seq<SqlStatementView>,
}

/// Runs the steps of a partial update in order and stops at the first that
/// fails: a statement the database refuses (`Database`), an identifier that
/// breaks the rules (`BadRequest` with the rule's message) or a user that
/// does not exist (`BadRequest`, `user {id} not found`). Success means
/// every step ran, so every checked identifier follows the rules. A step is
/// reached only when every identifier checked before it followed the rules,
/// so the error comes from the first refusing check, or from a statement or
/// user lookup that SQLite failed before it; an identifier check reached
/// with a malformed identifier always refuses with its rule's message. The
/// run reports how many steps it completed and the statements it handed to
/// SQLite: those of the steps up to the one it stopped at, and no later.
pub fn apply_update_plan(conn: &rusqlite::Connection, steps: Vec<UpdateStep>) -> (out: (
    Result<(), LificError>,
    Ghost<UpdateRun>,
))
    ensures
        ({
            let plan = update_steps_view(steps@);
            let (res, run) = (out.0, out.1@);
            &&& 0 <= run.completed <= plan.len()
            &&& checks_pass_before(plan, run.completed)
            &&& run.sent == sent_statements(started_steps(plan, run.completed))
            &&& (res is Ok <==> run.completed == plan.len())
            &&& (res matches Err(LificError::BadRequest(m)) ==> refusal_explained(
                plan[run.completed],
                m@,
            ))
            &&& (res matches Err(LificError::Database(_)) ==> plan[run.completed] is Execute
                || plan[run.completed] is CheckUser)
            &&& !(res matches Err(LificError::NotFound(_)))
        }),
{
    let ghost all = steps@;
    let ghost plan = update_steps_view(all);
    let ghost mut sent: Seq<SqlStatementView> = seq![];
    let n: usize = steps.len();
    let mut rest = steps;
    let mut k: usize = 0;
    #[verifier::loop_isolation(false)]
    while k < n
        invariant
            n == all.len(),
            plan == update_steps_view(all),
            plan.len() == n,
            k <= n,
            rest@ == all.subrange(k as int, n as int),
            checks_pass_before(plan, k as int),
            sent == sent_statements(plan.take(k as int)),
        decreases n - k,
    {
        let step = rest.remove(0);
        assert(step == all[k as int]);
        assert(rest@ =~= all.subrange(k + 1, n as int));
        assert(plan[k as int] == step@);
        assert(plan.take(k + 1).drop_last() =~= plan.take(k as int));
        assert(started_steps(plan, k as int) == plan.take(k + 1));
        match step {
            UpdateStep::Execute(stmt) => {
                let ghost statement = stmt@;
                let result = execute(conn, stmt.sql, stmt.params);
                proof {
                    sent = sent.push(statement);
                }
                match result {
                    Ok(_) => {},
                    Err(e) => {
                        return (
                            Err(LificError::Database(e)),
                            Ghost(UpdateRun { completed: k as int, sent }),
                        );
                    },
                }
            },
            UpdateStep::CheckIdentifier(identifier) => {
                match validate_identifier(identifier.as_str()) {
                    Ok(()) => {},
                    Err(e) => {
                        assert(refusal_explained(plan[k as int], e->BadRequest_0@));
                        return (Err(e), Ghost(UpdateRun { completed: k as int, sent }));
                    },
                }
            },
            UpdateStep::CheckUser(user) => {
                let columns = vec![Column { index: 0, kind: ColumnKind::Integer }];
                let stmt = build_user_exists(user);
                let answer = query_row(conn, stmt.sql, stmt.params, columns.as_slice());
                match user_check_result(user, answer) {
                    Ok(()) => {},
                    Err(e) => {
                        proof {
                            if e is BadRequest {
                                assert(refusal_explained(plan[k as int], e->BadRequest_0@));
                            }
                        }
                        return (Err(e), Ghost(UpdateRun { completed: k as int, sent }));
                    },
                }
            },
        }
        k = k + 1;
    }
    assert(plan.take(n as int) =~= plan);
    (Ok(()), Ghost(UpdateRun { completed: n as int, sent }))
}

/// Where step `k` of a partial update comes from: the name, identifier,
/// description, emoji or lead-user steps, in that order.
proof fn lemma_update_plan_step(id: i64, input: UpdateProject, k: int)
    requires
        0 <= k < update_plan(id, input).len(),
    ensures
        ({
            let a = name_steps(id, input.name);
            let b = identifier_steps(id, input.identifier);
            let c = description_steps(id, input.description);
            let d = emoji_steps(id, input.emoji);
            let e = lead_steps(id, input.lead_user_id);
            let plan = update_plan(id, input);
            ||| k < a.len() && plan[k] == a[k]
            ||| a.len() <= k < a.len() + b.len() && plan[k] == b[k - a.len()]
            ||| a.len() + b.len() <= k < a.len() + b.len() + c.len() && plan[k] == c[k - a.len()
                - b.len()]
            ||| a.len() + b.len() + c.len() <= k < a.len() + b.len() + c.len() + d.len()
                && plan[k] == d[k - a.len() - b.len() - c.len()]
            ||| a.len() + b.len() + c.len() + d.len() <= k && plan[k] == e[k - a.len() - b.len()
                - c.len() - d.len()]
        }),
{
    let a = name_steps(id, input.name);
    let b = identifier_steps(id, input.identifier);
    let c = description_steps(id, input.description);
    let d = emoji_steps(id, input.emoji);
    let e = lead_steps(id, input.lead_user_id);
    let plan = update_plan(id, input);
    assert(plan == a + b + c + d + e);
    if k < a.len() {
        assert(plan[k] == a[k]);
    } else if k < a.len() + b.len() {
        assert(plan[k] == b[k - a.len()]);
    } else if k < a.len() + b.len() + c.len() {
        assert(plan[k] == c[k - a.len() - b.len()]);
    } else if k < a.len() + b.len() + c.len() + d.len() {
        assert(plan[k] == d[k - a.len() - b.len() - c.len()]);
    } else {
        assert(plan[k] == e[k - a.len() - b.len() - c.len() - d.len()]);
    }
}

/// The only refusals a partial update plans are the identifier check and
/// the lead-user check.
proof fn lemma_update_plan_refusals(id: i64, input: UpdateProject, k: int, m: Seq<char>)
    requires
        0 <= k < update_plan(id, input).len(),
        refusal_explained(update_plan(id, input)[k], m),
    ensures
        (input.identifier matches Some(i) && identifier_error(i@) == Some(m)) || (
        input.lead_user_id matches Some(Some(u)) && m == user_not_found(u as int)),
{
    lemma_update_plan_step(id, input, k);
}

/// When the identifier of a partial update is malformed, the first refusal
/// the update can reach is that identifier's: the name write before it
/// refuses nothing, and every later step comes after the failing check.
proof fn lemma_update_plan_first_refusal(id: i64, input: UpdateProject, j: int, m: Seq<char>)
    requires
        0 <= j < update_plan(id, input).len(),
        checks_pass_before(update_plan(id, input), j),
        refusal_explained(update_plan(id, input)[j], m),
        input.identifier matches Some(i) && !is_valid_identifier(i@),
    ensures
        identifier_error(input.identifier->0@) == Some(m),
{
    let a = name_steps(id, input.name);
    let b = identifier_steps(id, input.identifier);
    let plan = update_plan(id, input);
    lemma_update_plan_step(id, input, a.len() as int);
    lemma_update_plan_step(id, input, j);
}

/// A partial update that carries an identifier checks that identifier.
proof fn lemma_update_plan_checks_identifier(id: i64, input: UpdateProject)
    requires
        identifier_checks_pass(update_plan(id, input)),
        input.identifier is Some,
    ensures
        is_valid_identifier(input.identifier->0@),
{
    lemma_update_plan_step(id, input, name_steps(id, input.name).len() as int);
}

/// The column a plan step writes, when it writes one.
pub open spec fn written_column(step: UpdateStepView) -> Option<Seq<char>> {
    match step {
        UpdateStepView::Execute(s) => Some(s.sql),
        _ => None,
    }
}

/// The five column updates have texts of different lengths, so no two of
/// them are the same statement.
proof fn lemma_update_statements_lengths()
    ensures
        UPDATE_NAME_SQL@.len() == 43,
        UPDATE_IDENTIFIER_SQL@.len() == 49,
        UPDATE_DESCRIPTION_SQL@.len() == 50,
        UPDATE_EMOJI_SQL@.len() == 44,
        UPDATE_LEAD_SQL@.len() == 51,
{
    reveal_strlit("UPDATE projects SET name = ?1 WHERE id = ?2");
    reveal_strlit("UPDATE projects SET identifier = ?1 WHERE id = ?2");
    reveal_strlit("UPDATE projects SET description = ?1 WHERE id = ?2");
    reveal_strlit("UPDATE projects SET emoji = ?1 WHERE id = ?2");
    reveal_strlit("UPDATE projects SET lead_user_id = ?1 WHERE id = ?2");
}

/// A partial update writes only the columns of the fields it carries, and
/// only the row of the project it addresses: the column of an absent field
/// is never written, so its stored value is kept.
pub proof fn law_update_writes_only_given_fields(id: i64, input: UpdateProject, k: int)
    requires
        0 <= k < update_plan(id, input).len(),
        update_plan(id, input)[k] is Execute,
    ensures
        update_plan(id, input)[k]->Execute_0.params.last() == SqlValueView::Integer(id),
        written_column(update_plan(id, input)[k]) == Some(UPDATE_NAME_SQL@) ==> input.name is Some,
        written_column(update_plan(id, input)[k]) == Some(UPDATE_IDENTIFIER_SQL@)
            ==> input.identifier is Some,
        written_column(update_plan(id, input)[k]) == Some(UPDATE_DESCRIPTION_SQL@)
            ==> input.description is Some,
        written_column(update_plan(id, input)[k]) == Some(UPDATE_EMOJI_SQL@) ==> input.emoji is Some,
        written_column(update_plan(id, input)[k]) == Some(UPDATE_LEAD_SQL@)
            ==> input.lead_user_id is Some,
{
    lemma_update_statements_lengths();
    lemma_update_plan_step(id, input, k);
}

/// Every statement a run of steps sends is that of one of its `Execute`
/// steps.
proof fn lemma_sent_statement_source(steps: Seq<UpdateStepView>, s: SqlStatementView)
    requires
        sent_statements(steps).contains(s),
    ensures
        exists|j: int| 0 <= j < steps.len() && steps[j] == UpdateStepView::Execute(s),
    decreases steps.len(),
{
    let before = steps.drop_last();
    if steps.last() == UpdateStepView::Execute(s) {
        assert(steps[steps.len() - 1] == UpdateStepView::Execute(s));
    } else {
        assert(sent_statements(before).contains(s));
        lemma_sent_statement_source(before, s);
        let j = choose|j: int| 0 <= j < before.len() && before[j] == UpdateStepView::Execute(s);
        assert(steps[j] == before[j]);
    }
}

/// A run of a partial update hands SQLite an identifier write only for an
/// identifier that follows the identifier rules, and only for the project
/// it addresses: each identifier write comes right after the check of that
/// identifier, and a run starts a step only when every check before it
/// passed. (That the stored identifiers then stay valid and distinct rests
/// on what SQLite stores and on its `UNIQUE` constraint, which the library
/// does not model.)
pub proof fn law_update_run_writes_only_valid_identifiers(
    id: i64,
    input: UpdateProject,
    completed: int,
    s: SqlStatementView,
)
    requires
        0 <= completed <= update_plan(id, input).len(),
        checks_pass_before(update_plan(id, input), completed),
        sent_statements(started_steps(update_plan(id, input), completed)).contains(s),
        s.sql == UPDATE_IDENTIFIER_SQL@,
    ensures
        s.params.len() == 2,
        s.params[0] matches SqlValueView::Text(v) && is_valid_identifier(v),
        s.params[1] == SqlValueView::Integer(id),
{
    let plan = update_plan(id, input);
    let started = started_steps(plan, completed);
    lemma_sent_statement_source(started, s);
    let j = choose|j: int| 0 <= j < started.len() && started[j] == UpdateStepView::Execute(s);
    assert(started[j] == plan[j]);
    lemma_update_statements_lengths();
    lemma_update_plan_step(id, input, j);
    let a = name_steps(id, input.name);
    assert(j == a.len() + 1);
    lemma_update_plan_step(id, input, j - 1);
    assert(plan[j - 1] matches UpdateStepView::CheckIdentifier(_));
}

/// The statements of two runs of steps, one after the other, are those of
/// the first followed by those of the second.
proof fn lemma_sent_statements_append(a: Seq<UpdateStepView>, b: Seq<UpdateStepView>)
    ensures
        sent_statements(a + b) == sent_statements(a) + sent_statements(b),
    decreases b.len(),
{
    if b.len() == 0 {
        assert(a + b =~= a);
        assert(sent_statements(a) + sent_statements(b) =~= sent_statements(a));
    } else {
        lemma_sent_statements_append(a, b.drop_last());
        assert((a + b).drop_last() =~= a + b.drop_last());
        assert((a + b).last() == b.last());
        match b.last() {
            UpdateStepView::Execute(x) => {
                assert(sent_statements(a) + sent_statements(b.drop_last()).push(x) =~= (
                sent_statements(a) + sent_statements(b.drop_last())).push(x));
            },
            _ => {},
        }
    }
}

/// A single step hands SQLite its statement when it is one.
proof fn lemma_sent_statements_single(step: UpdateStepView)
    ensures
        sent_statements(seq![step]) == match step {
            UpdateStepView::Execute(x) => seq![x],
            _ => Seq::<SqlStatementView>::empty(),
        },
{
    assert(seq![step].drop_last() =~= Seq::<UpdateStepView>::empty());
    assert(seq![step].last() == step);
    assert(sent_statements(Seq::<UpdateStepView>::empty()) =~= Seq::<SqlStatementView>::empty());
    match step {
        UpdateStepView::Execute(x) => {
            assert(Seq::<SqlStatementView>::empty().push(x) =~= seq![x]);
        },
        _ => {},
    }
}

/// The statements a plan's checks and writes hand SQLite when every step
/// runs: the writes of the given fields, in the order name, identifier,
/// description, emoji, lead user.
proof fn lemma_update_plan_sent(id: i64, input: UpdateProject)
    ensures
        sent_statements(update_plan(id, input)) == sent_statements(name_steps(id, input.name))
            + sent_statements(identifier_steps(id, input.identifier)) + sent_statements(
            description_steps(id, input.description),
        ) + sent_statements(emoji_steps(id, input.emoji)) + sent_statements(
            lead_steps(id, input.lead_user_id),
        ),
        input.name matches Some(n) ==> sent_statements(name_steps(id, input.name)) == seq![
            column_write(UPDATE_NAME_SQL@, SqlValueView::Text(n@), id),
        ],
        input.identifier matches Some(i) ==> sent_statements(identifier_steps(id, input.identifier))
            == seq![column_write(UPDATE_IDENTIFIER_SQL@, SqlValueView::Text(i@), id)],
        input.description matches Some(d) ==> sent_statements(
            description_steps(id, input.description),
        ) == seq![column_write(UPDATE_DESCRIPTION_SQL@, SqlValueView::Text(unescaped(d@)), id)],
        input.emoji matches Some(e) ==> sent_statements(emoji_steps(id, input.emoji)) == seq![
            column_write(UPDATE_EMOJI_SQL@, nullable_text_param(e), id),
        ],
        input.lead_user_id matches Some(l) ==> sent_statements(lead_steps(id, input.lead_user_id))
            == seq![column_write(UPDATE_LEAD_SQL@, nullable_integer_param(l), id)],
{
    let a = name_steps(id, input.name);
    let b = identifier_steps(id, input.identifier);
    let c = description_steps(id, input.description);
    let d = emoji_steps(id, input.emoji);
    let e = lead_steps(id, input.lead_user_id);
    lemma_sent_statements_append(a, b);
    lemma_sent_statements_append(a + b, c);
    lemma_sent_statements_append(a + b + c, d);
    lemma_sent_statements_append(a + b + c + d, e);
    if let Some(n) = input.name {
        lemma_sent_statements_single(set_column(UPDATE_NAME_SQL@, SqlValueView::Text(n@), id));
    }
    if let Some(i) = input.identifier {
        let check = UpdateStepView::CheckIdentifier(i@);
        let write = set_column(UPDATE_IDENTIFIER_SQL@, SqlValueView::Text(i@), id);
        lemma_sent_statements_single(check);
        lemma_sent_statements_single(write);
        lemma_sent_statements_append(seq![check], seq![write]);
        assert(seq![check] + seq![write] =~= b);
    }
    if let Some(t) = input.description {
        lemma_sent_statements_single(
            set_column(UPDATE_DESCRIPTION_SQL@, SqlValueView::Text(unescaped(t@)), id),
        );
    }
    if let Some(m) = input.emoji {
        lemma_sent_statements_single(set_column(UPDATE_EMOJI_SQL@, nullable_text_param(m), id));
    }
    match input.lead_user_id {
        Some(Some(u)) => {
            let check = UpdateStepView::CheckUser(u);
            let write = set_column(UPDATE_LEAD_SQL@, SqlValueView::Integer(u), id);
            lemma_sent_statements_single(check);
            lemma_sent_statements_single(write);
            lemma_sent_statements_append(seq![check], seq![write]);
            assert(seq![check] + seq![write] =~= e);
        },
        Some(None) => {
            lemma_sent_statements_single(set_column(UPDATE_LEAD_SQL@, SqlValueView::Null, id));
        },
        None => {},
    }
}

/// Every field a partial update carries is written to the row of the
/// project it addresses when the whole plan runs: the name as given, the
/// identifier as given, the description with its escape sequences
/// replaced, the emoji and the lead user as given (`NULL` for
/// `Some(None)`).
pub open spec fn writes_given_fields(id: i64, input: UpdateProject, sent: Seq<SqlStatementView>) -> bool {
    &&& input.name matches Some(n) ==> sent.contains(
        column_write(UPDATE_NAME_SQL@, SqlValueView::Text(n@), id),
    )
    &&& input.identifier matches Some(i) ==> sent.contains(
        column_write(UPDATE_IDENTIFIER_SQL@, SqlValueView::Text(i@), id),
    )
    &&& input.description matches Some(d) ==> sent.contains(
        column_write(UPDATE_DESCRIPTION_SQL@, SqlValueView::Text(unescaped(d@)), id),
    )
    &&& input.emoji matches Some(e) ==> sent.contains(
        column_write(UPDATE_EMOJI_SQL@, nullable_text_param(e), id),
    )
    &&& input.lead_user_id matches Some(l) ==> sent.contains(
        column_write(UPDATE_LEAD_SQL@, nullable_integer_param(l), id),
    )
}

/// A partial update that runs to its end writes every field it carries:
/// the statements it hands SQLite include, for each given field, the write
/// of that field's column in the row of project `id` with the given value
/// (the description unescaped, `NULL` for a cleared emoji or lead user).
pub proof fn law_update_plan_writes_every_given_field(id: i64, input: UpdateProject)
    ensures
        input.name matches Some(n) ==> sent_statements(update_plan(id, input)).contains(
            column_write(UPDATE_NAME_SQL@, SqlValueView::Text(n@), id),
        ),
        input.identifier matches Some(i) ==> sent_statements(update_plan(id, input)).contains(
            column_write(UPDATE_IDENTIFIER_SQL@, SqlValueView::Text(i@), id),
        ),
        input.description matches Some(d) ==> sent_statements(update_plan(id, input)).contains(
            column_write(UPDATE_DESCRIPTION_SQL@, SqlValueView::Text(unescaped(d@)), id),
        ),
        input.emoji matches Some(e) ==> sent_statements(update_plan(id, input)).contains(
            column_write(UPDATE_EMOJI_SQL@, nullable_text_param(e), id),
        ),
        input.lead_user_id matches Some(l) ==> sent_statements(update_plan(id, input)).contains(
            column_write(UPDATE_LEAD_SQL@, nullable_integer_param(l), id),
        ),
{
    lemma_update_plan_sent(id, input);
    let sa = sent_statements(name_steps(id, input.name));
    let sb = sent_statements(identifier_steps(id, input.identifier));
    let sc = sent_statements(description_steps(id, input.description));
    let sd = sent_statements(emoji_steps(id, input.emoji));
    let se = sent_statements(lead_steps(id, input.lead_user_id));
    let all = sent_statements(update_plan(id, input));
    assert(all == sa + sb + sc + sd + se);
    if input.name is Some {
        assert(all[0] == sa[0]);
    }
    if input.identifier is Some {
        assert(all[sa.len() as int] == sb[0]);
    }
    if input.description is Some {
        assert(all[(sa.len() + sb.len()) as int] == sc[0]);
    }
    if input.emoji is Some {
        assert(all[(sa.len() + sb.len() + sc.len()) as int] == sd[0]);
    }
    if input.lead_user_id is Some {
        assert(all[(sa.len() + sb.len() + sc.len() + sd.len()) as int] == se[0]);
    }
}

/// Applies a partial update to project `id` and returns the project as
/// stored afterwards, with a record of the run: how many plan steps it
/// completed and the plan statements it handed to SQLite. The update runs
/// inside a savepoint, which is rolled back when a step fails; what that
/// leaves in the database is SQLite's and is not part of this contract.
/// Refusals are exactly the identifier rules (for a given identifier) and
/// a lead user that does not exist. A malformed identifier is refused with
/// its rule's message unless SQLite failed first (looking up the project,
/// opening the savepoint, or writing the name). A successful update ran
/// its whole plan, so it wrote every field it carries; the project it
/// returns is the one the final lookup read.
pub fn update_project_run(conn: &rusqlite::Connection, id: i64, input: &UpdateProject) -> (out: (
    Result<Project, LificError>,
    Ghost<UpdateRun>,
))
    ensures
        input.identifier matches Some(i) && !is_valid_identifier(i@) ==> out.0 is Err,
        input.identifier is Some && identifier_error(input.identifier->0@) is Some ==> out.0 is Err
            && ((out.0->Err_0 matches LificError::BadRequest(m) && m@ == identifier_error(
            input.identifier->0@)->0) || out.0->Err_0 is Database || out.0->Err_0 is NotFound),
        out.0 matches Err(LificError::BadRequest(m)) ==> (input.identifier matches Some(i)
            && identifier_error(i@) == Some(m@)) || (input.lead_user_id matches Some(Some(u))
            && m@ == user_not_found(u as int)),
        out.0 matches Err(LificError::NotFound(m)) ==> m@ == project_id_not_found(id as int),
        out.0 matches Ok(p) ==> exists|cells: Seq<ReadCell>| #[trigger] project_read_from(p, cells),
        out.0 is Ok ==> out.1@.completed == update_plan(id, *input).len(),
        out.0 is Ok ==> out.1@.sent == sent_statements(update_plan(id, *input)),
        out.0 is Ok ==> writes_given_fields(id, *input, out.1@.sent),
        out.1@.sent.len() == 0 || (0 <= out.1@.completed <= update_plan(id, *input).len()
            && out.1@.sent == sent_statements(
            started_steps(update_plan(id, *input), out.1@.completed),
        )),
{
    let ghost nothing = UpdateRun { completed: 0, sent: seq![] };
    match get_project(conn, id) {
        Ok(_) => {},
        Err(e) => return (Err(e), Ghost(nothing)),
    }
    let savepoint = build_savepoint();
    match execute(conn, savepoint.sql, savepoint.params) {
        Ok(_) => {},
        Err(e) => return (Err(LificError::Database(e)), Ghost(nothing)),
    }
    let steps = build_update_plan(id, input);
    let ghost plan = update_steps_view(steps@);
    let (applied, Ghost(run)) = apply_update_plan(conn, steps);
    match applied {
        Ok(()) => {
            proof {
                if input.identifier is Some {
                    lemma_update_plan_checks_identifier(id, *input);
                }
                law_update_plan_writes_every_given_field(id, *input);
            }
            let release = build_release();
            match execute(conn, release.sql, release.params) {
                Ok(_) => {},
                Err(e) => return (Err(LificError::Database(e)), Ghost(run)),
            }
        },
        Err(e) => {
            proof {
                if e is BadRequest {
                    let m = e->BadRequest_0@;
                    let k = run.completed;
                    lemma_update_plan_refusals(id, *input, k, m);
                    if input.identifier is Some && !is_valid_identifier(input.identifier->0@) {
                        lemma_update_plan_first_refusal(id, *input, k, m);
                    }
                }
            }
            let rollback = build_rollback();
            let _ = execute(conn, rollback.sql, rollback.params);
            let release = build_release();
            let _ = execute(conn, release.sql, release.params);
            return (Err(e), Ghost(run));
        },
    }
    (get_project(conn, id), Ghost(run))
}

/// Applies a partial update to project `id` and returns the project as
/// stored afterwards: `update_project_run` without the record of the run.
pub fn update_project(conn: &rusqlite::Connection, id: i64, input: &UpdateProject) -> (res:
    Result<Project, LificError>)
    ensures
        input.identifier matches Some(i) && !is_valid_identifier(i@) ==> res is Err,
        input.identifier is Some && identifier_error(input.identifier->0@) is Some ==> res is Err
            && ((res->Err_0 matches LificError::BadRequest(m) && m@ == identifier_error(
            input.identifier->0@)->0) || res->Err_0 is Database || res->Err_0 is NotFound),
        res matches Err(LificError::BadRequest(m)) ==> (input.identifier matches Some(i)
            && identifier_error(i@) == Some(m@)) || (input.lead_user_id matches Some(Some(u))
            && m@ == user_not_found(u as int)),
        res matches Err(LificError::NotFound(m)) ==> m@ == project_id_not_found(id as int),
        res matches Ok(p) ==> exists|cells: Seq<ReadCell>| #[trigger] project_read_from(p, cells),
{
    let (res, Ghost(_run)) = update_project_run(conn, id, input);
    res
}

} // verus!
