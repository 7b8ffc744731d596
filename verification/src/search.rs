//! Full-text search over issues and pages.
//!
//! The search string becomes an FTS5 query (see `fts`), the statement is
//! chosen by whether the search is limited to one project, and each hit is
//! given the identifier of the record it found: `LIF-42` for an issue,
//! `LIF-DOC-1` for a project page, `DOC-1` for a page outside any project.

use vstd::prelude::*;
use vstd::string::*;

use crate::db::{
    Cell, Column, ColumnKind, ReadCell, SqlStatementView, SqlValue, SqlValueView, cell_values,
    cells_have_kinds, column_kinds, integer_of, nullable_integer_of,
    nullable_text_of, prepare, query_map, row_read_as, sql_values_view, text_of,
};
use crate::error::LificError;
use crate::fts::{build_fts_query, fts_query};
use crate::identifier::{
    format_issue_identifier, format_project_page_identifier, format_workspace_page_identifier,
    issue_identifier, project_page_identifier, workspace_page_identifier,
};
use crate::models::{SearchQuery, SearchResult};
use crate::text::str_eq;

verus! {

/// The columns every search reads: entity type and id, title, snippet (of
/// the title when the body is empty, else of the body), project id, the
/// project's identifier, and the issue's or the page's sequence number.
pub const SEARCH_BASE_SQL: &'static str =
    "SELECT s.entity_type, s.entity_id, s.title,
                CASE WHEN s.body = '' OR s.body IS NULL
                     THEN snippet(search_index, 0, '**', '**', '...', 32)
                     ELSE snippet(search_index, 1, '**', '**', '...', 32)
                END,
                s.project_id,
                p.identifier, i.sequence, pg.sequence
         FROM search_index s
         LEFT JOIN issues i ON s.entity_type = 'issue' AND i.id = s.entity_id
         LEFT JOIN pages pg ON s.entity_type = 'page' AND pg.id = s.entity_id
         LEFT JOIN projects p ON p.id = s.project_id";

pub const SEARCH_IN_PROJECT_CLAUSE: &'static str =
    " WHERE search_index MATCH ?1 AND s.project_id = ?2 ORDER BY rank LIMIT ?3";

pub const SEARCH_ALL_CLAUSE: &'static str = " WHERE search_index MATCH ?1 ORDER BY rank LIMIT ?2";

/// The number of hits returned when the query sets no limit.
pub const DEFAULT_SEARCH_LIMIT: i64 = 20;

pub open spec fn search_limit(q: SearchQuery) -> i64 {
    match q.limit {
        Some(limit) => limit,
        None => DEFAULT_SEARCH_LIMIT,
    }
}

/// The statement a search runs: the FTS5 query of the search string, then
/// the project (when the search is limited to one), then the limit.
pub open spec fn search_statement(q: SearchQuery) -> SqlStatementView {
    match q.project_id {
        Some(project) => SqlStatementView {
            sql: SEARCH_BASE_SQL@ + SEARCH_IN_PROJECT_CLAUSE@,
            params: seq![
                SqlValueView::Text(fts_query(q.query@)),
                SqlValueView::Integer(project),
                SqlValueView::Integer(search_limit(q)),
            ],
        },
        None => SqlStatementView {
            sql: SEARCH_BASE_SQL@ + SEARCH_ALL_CLAUSE@,
            params: seq![
                SqlValueView::Text(fts_query(q.query@)),
                SqlValueView::Integer(search_limit(q)),
            ],
        },
    }
}

/// A search statement, whose text is built at run time.
#[derive(Debug)]
pub struct SearchStatement {
    pub sql: String,
    pub params: Vec<SqlValue>,
}

impl View for SearchStatement {
    type V = SqlStatementView;

    open spec fn view(&self) -> SqlStatementView {
        SqlStatementView { sql: self.sql@, params: sql_values_view(self.params@) }
    }
}

/// Builds the statement a search runs.
pub fn build_search_statement(q: &SearchQuery) -> (stmt: SearchStatement)
    ensures
        stmt@ == search_statement(*q),
{
    let limit: i64 = match q.limit {
        Some(limit) => limit,
        None => DEFAULT_SEARCH_LIMIT,
    };
    let fts = build_fts_query(q.query.as_str());
    let mut sql = String::from_str(SEARCH_BASE_SQL);
    let stmt = match q.project_id {
        Some(project) => {
            sql.append(SEARCH_IN_PROJECT_CLAUSE);
            SearchStatement {
                sql,
                params: vec![
                    SqlValue::Text(fts),
                    SqlValue::Integer(project),
                    SqlValue::Integer(limit),
                ],
            }
        },
        None => {
            sql.append(SEARCH_ALL_CLAUSE);
            SearchStatement { sql, params: vec![SqlValue::Text(fts), SqlValue::Integer(limit)] }
        },
    };
    assert(stmt@.params =~= search_statement(*q).params);
    stmt
}

/// The identifier of a hit: for an issue, its project's identifier and its
/// sequence number; for a page, its project's identifier, `DOC` and its
/// sequence number, or `DOC` and the sequence number for a page outside
/// any project; nothing when a part is missing or for any other entity.
pub open spec fn result_identifier(
    entity_type: Seq<char>,
    project: Option<Seq<char>>,
    issue_sequence: Option<i64>,
    page_sequence: Option<i64>,
) -> Option<Seq<char>> {
    if entity_type == "issue"@ {
        match (project, issue_sequence) {
            (Some(p), Some(n)) => Some(issue_identifier(p, n as int)),
            _ => None,
        }
    } else if entity_type == "page"@ {
        match (project, page_sequence) {
            (Some(p), Some(n)) => Some(project_page_identifier(p, n as int)),
            (None, Some(n)) => Some(workspace_page_identifier(n as int)),
            _ => None,
        }
    } else {
        None
    }
}

pub open spec fn optional_view(o: Option<String>) -> Option<Seq<char>> {
    match o {
        Some(s) => Some(s@),
        None => None,
    }
}

/// Computes the identifier of a hit.
pub fn build_result_identifier(
    entity_type: &str,
    project: &Option<String>,
    issue_sequence: Option<i64>,
    page_sequence: Option<i64>,
) -> (id: Option<String>)
    ensures
        optional_view(id) == result_identifier(
            entity_type@,
            optional_view(*project),
            issue_sequence,
            page_sequence,
        ),
{
    if str_eq(entity_type, "issue") {
        match (project, issue_sequence) {
            (Some(p), Some(n)) => Some(format_issue_identifier(p.as_str(), n)),
            _ => None,
        }
    } else if str_eq(entity_type, "page") {
        match (project, page_sequence) {
            (Some(p), Some(n)) => Some(format_project_page_identifier(p.as_str(), n)),
            (None, Some(n)) => Some(format_workspace_page_identifier(n)),
            _ => None,
        }
    } else {
        None
    }
}

/// The columns of a search row, in the order they are read: entity type
/// (column 0), the project's identifier (5), the issue's and the page's
/// sequence numbers (6, 7), then id, title, snippet and project id (1 to
/// 4). When several columns cannot be read, the error reported is that of
/// the first in this order.
pub open spec fn search_read_order() -> Seq<Column> {
    seq![
        Column { index: 0, kind: ColumnKind::Text },
        Column { index: 5, kind: ColumnKind::NullableText },
        Column { index: 6, kind: ColumnKind::NullableInteger },
        Column { index: 7, kind: ColumnKind::NullableInteger },
        Column { index: 1, kind: ColumnKind::Integer },
        Column { index: 2, kind: ColumnKind::Text },
        Column { index: 3, kind: ColumnKind::Text },
        Column { index: 4, kind: ColumnKind::NullableInteger },
    ]
}

/// The kinds of the cells of a search row, in reading order.
pub open spec fn search_columns() -> Seq<ColumnKind> {
    seq![
        ColumnKind::Text,
        ColumnKind::NullableText,
        ColumnKind::NullableInteger,
        ColumnKind::NullableInteger,
        ColumnKind::Integer,
        ColumnKind::Text,
        ColumnKind::Text,
        ColumnKind::NullableInteger,
    ]
}

fn search_column_order() -> (columns: Vec<Column>)
    ensures
        columns@ == search_read_order(),
        column_kinds(columns@) == search_columns(),
{
    let columns = vec![
        Column { index: 0, kind: ColumnKind::Text },
        Column { index: 5, kind: ColumnKind::NullableText },
        Column { index: 6, kind: ColumnKind::NullableInteger },
        Column { index: 7, kind: ColumnKind::NullableInteger },
        Column { index: 1, kind: ColumnKind::Integer },
        Column { index: 2, kind: ColumnKind::Text },
        Column { index: 3, kind: ColumnKind::Text },
        Column { index: 4, kind: ColumnKind::NullableInteger },
    ];
    assert(columns@ =~= search_read_order());
    assert(column_kinds(columns@) =~= search_columns());
    columns
}

/// `r` is the hit that a row of `search_columns()` describes: entity type,
/// id, title, snippet and project id as read, and the identifier computed
/// from the entity type, the project's identifier and the sequence numbers.
pub open spec fn is_result_of_row(r: SearchResult, cells: Seq<Cell>) -> bool {
    &&& r.result_type == text_of(cells[0])
    &&& r.id == integer_of(cells[4])
    &&& r.title == text_of(cells[5])
    &&& r.snippet == text_of(cells[6])
    &&& r.project_id == nullable_integer_of(cells[7])
    &&& optional_view(r.identifier) == result_identifier(
        text_of(cells[0])@,
        optional_view(nullable_text_of(cells[1])),
        nullable_integer_of(cells[2]),
        nullable_integer_of(cells[3]),
    )
}

fn text_cell(c: &Cell) -> (t: String)
    requires
        c.has_kind(ColumnKind::Text),
    ensures
        t == text_of(*c),
{
    match c {
        Cell::Text(t) => t.clone(),
        _ => String::new(),
    }
}

fn integer_cell(c: &Cell) -> (i: i64)
    requires
        c.has_kind(ColumnKind::Integer),
    ensures
        i == integer_of(*c),
{
    match c {
        Cell::Integer(i) => *i,
        _ => 0,
    }
}

fn nullable_integer_cell(c: &Cell) -> (i: Option<i64>)
    requires
        c.has_kind(ColumnKind::NullableInteger),
    ensures
        i == nullable_integer_of(*c),
{
    match c {
        Cell::NullableInteger(i) => *i,
        _ => None,
    }
}

fn nullable_text_cell(c: &Cell) -> (t: &Option<String>)
    requires
        c.has_kind(ColumnKind::NullableText),
    ensures
        *t == nullable_text_of(*c),
{
    match c {
        Cell::NullableText(t) => t,
        _ => &None,
    }
}

/// Builds the hit that a row of `search_columns()` describes.
pub fn search_result_from_row(cells: &Vec<ReadCell>) -> (r: SearchResult)
    requires
        cells_have_kinds(cell_values(cells@), search_columns()),
    ensures
        is_result_of_row(r, cell_values(cells@)),
{
    let ghost row = cell_values(cells@);
    assert(row[0].has_kind(ColumnKind::Text));
    assert(row[1].has_kind(ColumnKind::NullableText));
    assert(row[2].has_kind(ColumnKind::NullableInteger));
    assert(row[3].has_kind(ColumnKind::NullableInteger));
    assert(row[4].has_kind(ColumnKind::Integer));
    assert(row[5].has_kind(ColumnKind::Text));
    assert(row[6].has_kind(ColumnKind::Text));
    assert(row[7].has_kind(ColumnKind::NullableInteger));
    let result_type = text_cell(&cells[0].value);
    let identifier = build_result_identifier(
        result_type.as_str(),
        nullable_text_cell(&cells[1].value),
        nullable_integer_cell(&cells[2].value),
        nullable_integer_cell(&cells[3].value),
    );
    SearchResult {
        result_type,
        id: integer_cell(&cells[4].value),
        identifier,
        title: text_cell(&cells[5].value),
        snippet: text_cell(&cells[6].value),
        project_id: nullable_integer_cell(&cells[7].value),
    }
}

/// Builds the hits that rows of `search_columns()` describe, in order.
pub fn search_results_from_rows(rows: &Vec<Vec<ReadCell>>) -> (results: Vec<SearchResult>)
    requires
        forall|i: int|
            0 <= i < rows.len() ==> cells_have_kinds(
                cell_values(#[trigger] rows@[i]@),
                search_columns(),
            ),
    ensures
        results@.len() == rows@.len(),
        forall|i: int|
            0 <= i < rows.len() ==> is_result_of_row(
                #[trigger] results@[i],
                cell_values(rows@[i]@),
            ),
{
    let mut results: Vec<SearchResult> = Vec::new();
    let mut i: usize = 0;
    while i < rows.len()
        invariant
            i <= rows@.len(),
            results@.len() == i,
            forall|i: int|
                0 <= i < rows.len() ==> cells_have_kinds(
                    cell_values(#[trigger] rows@[i]@),
                    search_columns(),
                ),
            forall|j: int|
                0 <= j < i ==> is_result_of_row(#[trigger] results@[j], cell_values(rows@[j]@)),
        decreases rows@.len() - i,
    {
        results.push(search_result_from_row(&rows[i]));
        i = i + 1;
    }
    results
}

/// `r` is what some row of `search_columns()` describes: its identifier is
/// the one its entity type, its project's identifier and its sequence
/// numbers give.
pub open spec fn is_search_hit(r: SearchResult) -> bool {
    exists|cells: Seq<Cell>| cells_have_kinds(cells, search_columns()) && #[trigger] is_result_of_row(r, cells)
}

/// `hits` are, one for one and in order, the hits that `rows` describe,
/// each row read in `search_read_order()`.
pub open spec fn hits_read_from(hits: Seq<SearchResult>, rows: Seq<Seq<ReadCell>>) -> bool {
    &&& hits.len() == rows.len()
    &&& forall|i: int|
        0 <= i < rows.len() ==> row_read_as(#[trigger] rows[i], search_read_order())
            && is_result_of_row(hits[i], cell_values(rows[i]))
}

/// In a hit read from a search row, each field is the column of the search
/// statement that holds it: the entity type is column 0, the id column 1,
/// the title column 2, the snippet column 3 and the project id column 4;
/// the identifier is computed from the entity type, the project's
/// identifier (column 5) and the issue's and the page's sequence numbers
/// (columns 6 and 7).
pub proof fn law_search_hit_fields_from_columns(r: SearchResult, cells: Seq<ReadCell>)
    requires
        row_read_as(cells, search_read_order()),
        is_result_of_row(r, cell_values(cells)),
    ensures
        forall|j: int|
            0 <= j < cells.len() ==> {
                let c = #[trigger] cells[j];
                &&& c.column == 0 ==> r.result_type == text_of(c.value)
                &&& c.column == 1 ==> r.id == integer_of(c.value)
                &&& c.column == 2 ==> r.title == text_of(c.value)
                &&& c.column == 3 ==> r.snippet == text_of(c.value)
                &&& c.column == 4 ==> r.project_id == nullable_integer_of(c.value)
            },
        forall|a: int, b: int, c: int, d: int|
            0 <= a < cells.len() && 0 <= b < cells.len() && 0 <= c < cells.len() && 0 <= d
                < cells.len() && #[trigger] cells[a].column == 0 && #[trigger] cells[b].column == 5
                && #[trigger] cells[c].column == 6 && #[trigger] cells[d].column == 7
                ==> optional_view(r.identifier) == result_identifier(
                text_of(cells[a].value)@,
                optional_view(nullable_text_of(cells[b].value)),
                nullable_integer_of(cells[c].value),
                nullable_integer_of(cells[d].value),
            ),
{
    let order = search_read_order();
    assert forall|j: int| 0 <= j < cells.len() implies cells[j].column == order[j].index by {}
    assert(cell_values(cells)[0] == cells[0].value);
    assert(cell_values(cells)[1] == cells[1].value);
    assert(cell_values(cells)[2] == cells[2].value);
    assert(cell_values(cells)[3] == cells[3].value);
    assert(cell_values(cells)[4] == cells[4].value);
    assert(cell_values(cells)[5] == cells[5].value);
    assert(cell_values(cells)[6] == cells[6].value);
    assert(cell_values(cells)[7] == cells[7].value);
}

/// Searches issues and pages, best matches first (SQLite's `ORDER BY
/// rank`), and reports the statement it ran: `search_statement(q)`, with
/// the FTS5 query of the search string, the project when the search is
/// limited to one, and the limit. Whatever the database answers, the
/// result is a database error or the hits its rows describe, one for each
/// row and in the order of the rows, each row read in
/// `search_read_order()` and each hit with the identifier its row gives.
pub fn search_run(conn: &rusqlite::Connection, q: &SearchQuery) -> (out: (
    Result<Vec<SearchResult>, LificError>,
    Ghost<SqlStatementView>,
))
    ensures
        out.0 is Ok || out.0 matches Err(LificError::Database(_)),
        out.0 matches Ok(hits) ==> forall|i: int|
            0 <= i < hits.len() ==> is_search_hit(#[trigger] hits@[i]),
        out.0 matches Ok(hits) ==> exists|rows: Seq<Seq<ReadCell>>|
            #[trigger] hits_read_from(hits@, rows),
        out.1@ == search_statement(*q),
{
    let stmt = build_search_statement(q);
    let ghost sent = stmt@;
    let mut prepared = match prepare(conn, stmt.sql.as_str()) {
        Ok(prepared) => prepared,
        Err(e) => return (Err(LificError::Database(e)), Ghost(sent)),
    };
    let columns = search_column_order();
    match query_map(&mut prepared, stmt.params, columns.as_slice()) {
        Ok(rows) => {
            let hits = search_results_from_rows(&rows);
            let ghost read = rows@.map_values(|r: Vec<ReadCell>| r@);
            assert forall|i: int| 0 <= i < hits.len() implies is_search_hit(#[trigger] hits@[i]) by {
                assert(cells_have_kinds(cell_values(rows@[i]@), search_columns()));
                assert(is_result_of_row(hits@[i], cell_values(rows@[i]@)));
            }
            assert(hits_read_from(hits@, read)) by {
                assert forall|i: int| 0 <= i < read.len() implies row_read_as(
                    #[trigger] read[i],
                    search_read_order(),
                ) && is_result_of_row(hits@[i], cell_values(read[i])) by {
                    assert(read[i] == rows@[i]@);
                }
            }
            let res: Result<Vec<SearchResult>, LificError> = Ok(hits);
            assert(hits_read_from(res->Ok_0@, read));
            (res, Ghost(sent))
        },
        Err(e) => (Err(LificError::Database(e)), Ghost(sent)),
    }
}

/// Searches issues and pages, best matches first: `search_run` without the
/// record of the statement. The result is a database error or the hits
/// the rows describe, one for each row and in the order of the rows, each
/// with the identifier its row gives.
pub fn search(conn: &rusqlite::Connection, q: &SearchQuery) -> (res: Result<
    Vec<SearchResult>,
    LificError,
>)
    ensures
        res is Ok || res matches Err(LificError::Database(_)),
        res matches Ok(hits) ==> forall|i: int| 0 <= i < hits.len() ==> is_search_hit(#[trigger] hits@[i]),
        res matches Ok(hits) ==> exists|rows: Seq<Seq<ReadCell>>| #[trigger] hits_read_from(hits@, rows),
{
    let (res, Ghost(_sent)) = search_run(conn, q);
    res
}

} // verus!
