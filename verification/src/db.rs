//! The boundary to SQLite: the `rusqlite` types that pass through the
//! library, the plain values that cross it, and the trusted wrappers around
//! the calls that reach the database. What SQLite stores and answers is not
//! modelled; each wrapper states only what the `rusqlite` source guarantees
//! of every outcome.

use rusqlite::types::Value;
use vstd::prelude::*;

verus! {

/// Declares `rusqlite::Connection`, an open database; opaque to the proofs.
#[verifier::external_type_specification]
#[verifier::external_body]
pub struct ExConnection(rusqlite::Connection);

/// Declares `rusqlite::Error`, carried unchanged in `LificError::Database`.
#[verifier::external_type_specification]
#[verifier::external_body]
pub struct ExSqliteError(rusqlite::Error);

/// Declares `rusqlite::Row`, one result row; read only through `read_cell`.
#[verifier::external_type_specification]
#[verifier::external_body]
pub struct ExRow<'stmt>(rusqlite::Row<'stmt>);

/// Declares `rusqlite::Statement`, a compiled statement; opaque.
#[verifier::external_type_specification]
#[verifier::external_body]
pub struct ExStatement<'conn>(rusqlite::Statement<'conn>);

/// A value bound to a statement parameter.
#[derive(Debug)]
pub enum SqlValue {
    Null,
    Integer(i64),
    Text(String),
}

/// What a parameter value is, as the library's contracts see it.
pub enum SqlValueView {
    Null,
    Integer(i64),
    Text(Seq<char>),
}

impl View for SqlValue {
    type V = SqlValueView;

    open spec fn view(&self) -> SqlValueView {
        match self {
            SqlValue::Null => SqlValueView::Null,
            SqlValue::Integer(i) => SqlValueView::Integer(*i),
            SqlValue::Text(t) => SqlValueView::Text(t@),
        }
    }
}

pub open spec fn sql_values_view(values: Seq<SqlValue>) -> Seq<SqlValueView> {
    values.map_values(|v: SqlValue| v@)
}

/// A statement and the values bound to its parameters `?1, ?2, ...`.
#[derive(Debug)]
pub struct SqlStatement {
    pub sql: &'static str,
    pub params: Vec<SqlValue>,
}

pub struct SqlStatementView {
    pub sql: Seq<char>,
    pub params: Seq<SqlValueView>,
}

impl View for SqlStatement {
    type V = SqlStatementView;

    open spec fn view(&self) -> SqlStatementView {
        SqlStatementView { sql: self.sql@, params: sql_values_view(self.params@) }
    }
}

/// The Rust type a result column is read as.
#[derive(Debug, Clone, Copy)]
pub enum ColumnKind {
    /// `i64`
    Integer,
    /// `Option<i64>`
    NullableInteger,
    /// `String`
    Text,
    /// `Option<String>`
    NullableText,
}

/// A result column to read: its position in the row and the kind it is
/// read as.
#[derive(Debug, Clone, Copy)]
pub struct Column {
    pub index: usize,
    pub kind: ColumnKind,
}

/// The kinds of the columns read, in the order they are read.
pub open spec fn column_kinds(columns: Seq<Column>) -> Seq<ColumnKind> {
    columns.map_values(|c: Column| c.kind)
}

/// A result column, read as its `ColumnKind`.
#[derive(Debug)]
pub enum Cell {
    Integer(i64),
    NullableInteger(Option<i64>),
    Text(String),
    NullableText(Option<String>),
}

impl Cell {
    pub open spec fn has_kind(self, kind: ColumnKind) -> bool {
        match (self, kind) {
            (Cell::Integer(_), ColumnKind::Integer) => true,
            (Cell::NullableInteger(_), ColumnKind::NullableInteger) => true,
            (Cell::Text(_), ColumnKind::Text) => true,
            (Cell::NullableText(_), ColumnKind::NullableText) => true,
            _ => false,
        }
    }
}

/// The row has one cell per requested column, each of the requested kind.
pub open spec fn cells_have_kinds(cells: Seq<Cell>, kinds: Seq<ColumnKind>) -> bool {
    &&& cells.len() == kinds.len()
    &&& forall|i: int| 0 <= i < cells.len() ==> (#[trigger] cells[i]).has_kind(kinds[i])
}

pub open spec fn integer_of(c: Cell) -> i64 {
    match c {
        Cell::Integer(i) => i,
        _ => 0,
    }
}

pub open spec fn nullable_integer_of(c: Cell) -> Option<i64> {
    match c {
        Cell::NullableInteger(i) => i,
        _ => None,
    }
}

pub open spec fn text_of(c: Cell) -> String {
    match c {
        Cell::Text(t) => t,
        _ => arbitrary(),
    }
}

pub open spec fn nullable_text_of(c: Cell) -> Option<String> {
    match c {
        Cell::NullableText(t) => t,
        _ => None,
    }
}

/// A cell together with the position, in the result row, of the column it
/// was read from.
#[derive(Debug)]
pub struct ReadCell {
    pub column: usize,
    pub value: Cell,
}

/// The values of a row of read cells, in order.
pub open spec fn cell_values(cells: Seq<ReadCell>) -> Seq<Cell> {
    cells.map_values(|c: ReadCell| c.value)
}

/// Cell `j` of the row was read from column `columns[j].index`, as
/// `columns[j].kind`, and every requested column was read.
pub open spec fn row_read_as(cells: Seq<ReadCell>, columns: Seq<Column>) -> bool {
    &&& cells.len() == columns.len()
    &&& forall|j: int|
        0 <= j < cells.len() ==> (#[trigger] cells[j]).column == columns[j].index
            && cells[j].value.has_kind(columns[j].kind)
}

/// A row read as `columns` has the kinds of `columns`.
pub proof fn lemma_row_read_as_kinds(cells: Seq<ReadCell>, columns: Seq<Column>)
    requires
        row_read_as(cells, columns),
    ensures
        cells_have_kinds(cell_values(cells), column_kinds(columns)),
{
    assert forall|i: int| 0 <= i < cells.len() implies (#[trigger] cell_values(cells)[i]).has_kind(
        column_kinds(columns)[i],
    ) by {
        assert(cell_values(cells)[i] == cells[i].value);
        assert(column_kinds(columns)[i] == columns[i].kind);
    }
}

pub(crate) fn pop_integer(cells: &mut Vec<ReadCell>) -> (i: i64)
    requires
        old(cells).len() > 0,
        old(cells)@.last().value is Integer,
    ensures
        final(cells)@ == old(cells)@.drop_last(),
        i == integer_of(old(cells)@.last().value),
{
    match cells.pop() {
        Some(ReadCell { value: Cell::Integer(i), .. }) => i,
        _ => 0,
    }
}

pub(crate) fn pop_nullable_integer(cells: &mut Vec<ReadCell>) -> (i: Option<i64>)
    requires
        old(cells).len() > 0,
        old(cells)@.last().value is NullableInteger,
    ensures
        final(cells)@ == old(cells)@.drop_last(),
        i == nullable_integer_of(old(cells)@.last().value),
{
    match cells.pop() {
        Some(ReadCell { value: Cell::NullableInteger(i), .. }) => i,
        _ => None,
    }
}

pub(crate) fn pop_text(cells: &mut Vec<ReadCell>) -> (t: String)
    requires
        old(cells).len() > 0,
        old(cells)@.last().value is Text,
    ensures
        final(cells)@ == old(cells)@.drop_last(),
        t == text_of(old(cells)@.last().value),
{
    match cells.pop() {
        Some(ReadCell { value: Cell::Text(t), .. }) => t,
        _ => String::new(),
    }
}

pub(crate) fn pop_nullable_text(cells: &mut Vec<ReadCell>) -> (t: Option<String>)
    requires
        old(cells).len() > 0,
        old(cells)@.last().value is NullableText,
    ensures
        final(cells)@ == old(cells)@.drop_last(),
        t == nullable_text_of(old(cells)@.last().value),
{
    match cells.pop() {
        Some(ReadCell { value: Cell::NullableText(t), .. }) => t,
        _ => None,
    }
}

/// How a single-row query can fail.
#[derive(Debug)]
pub enum QueryRowError {
    /// The query returned no row (`rusqlite::Error::QueryReturnedNoRows`).
    NoRows,
    /// Any other error.
    Sqlite(rusqlite::Error),
}

/// Reads column `index` of `row` as `kind`: a wrapper around `Row::get`,
/// which converts the column to the requested Rust type or fails; on
/// success the cell therefore has the requested kind. What the column holds
/// is the database's and is not stated.
#[verifier::external_body]
fn read_cell(row: &rusqlite::Row, index: usize, kind: ColumnKind) -> (res: Result<
    Cell,
    rusqlite::Error,
>)
    ensures
        res matches Ok(cell) ==> cell.has_kind(kind),
{
    match kind {
        ColumnKind::Integer => row.get(index).map(Cell::Integer),
        ColumnKind::NullableInteger => row.get(index).map(Cell::NullableInteger),
        ColumnKind::Text => row.get(index).map(Cell::Text),
        ColumnKind::NullableText => row.get(index).map(Cell::NullableText),
    }
}

/// Reads the given columns of a result row, in the order given, each as
/// its kind, stopping at the first column that cannot be read; cell `i` is
/// column `columns[i]`, tagged with that column's position. With no column
/// to read, nothing is asked of the row and the read succeeds.
pub fn read_row(row: &rusqlite::Row, columns: &[Column]) -> (res: Result<
    Vec<ReadCell>,
    rusqlite::Error,
>)
    ensures
        res matches Ok(cells) ==> row_read_as(cells@, columns@),
        res matches Ok(cells) ==> cells_have_kinds(cell_values(cells@), column_kinds(columns@)),
        columns@.len() == 0 ==> res is Ok,
{
    let mut cells: Vec<ReadCell> = Vec::new();
    let mut i: usize = 0;
    while i < columns.len()
        invariant
            i <= columns@.len(),
            row_read_as(cells@, columns@.take(i as int)),
        decreases columns@.len() - i,
    {
        let column = columns[i];
        match read_cell(row, column.index, column.kind) {
            Ok(cell) => cells.push(ReadCell { column: column.index, value: cell }),
            Err(e) => return Err(e),
        }
        proof {
            assert(columns@.take(i + 1)[i as int] == column);
            assert forall|j: int| 0 <= j < i implies columns@.take(i + 1)[j] == columns@.take(
                i as int,
            )[j] by {}
        }
        i = i + 1;
    }
    proof {
        assert(columns@.take(columns@.len() as int) =~= columns@);
        lemma_row_read_as_kinds(cells@, columns@);
    }
    Ok(cells)
}

/// Runs one SQL statement with its parameters bound in order: a wrapper
/// around `Connection::execute`, which returns the number of rows changed.
/// That number, and whether the call succeeds, are the database's.
#[verifier::external_body]
pub(crate) fn execute(conn: &rusqlite::Connection, sql: &str, params: Vec<SqlValue>) -> (res:
    Result<usize, rusqlite::Error>)
{
    conn.execute(
        sql,
        rusqlite::params_from_iter(
            params.into_iter().map(
                |p| match p {
                    SqlValue::Null => Value::Null,
                    SqlValue::Integer(i) => Value::Integer(i),
                    SqlValue::Text(t) => Value::Text(t),
                },
            ),
        ),
    )
}

/// The rowid of the most recent successful insert on this connection: a
/// wrapper around `Connection::last_insert_rowid`. Its value is the
/// database's.
#[verifier::external_body]
pub(crate) fn last_insert_rowid(conn: &rusqlite::Connection) -> (id: i64) {
    conn.last_insert_rowid()
}

/// Runs a query and reads its first row with `read_row`: a wrapper around
/// `Connection::query_row`, which ignores further rows and fails with
/// `QueryReturnedNoRows` when there is none; that error becomes
/// `QueryRowError::NoRows`. On success the row is as `read_row` produced
/// it: one cell per requested column, tagged with that column's position
/// and of its kind; what the cells hold is the database's.
#[verifier::external_body]
pub(crate) fn query_row(
    conn: &rusqlite::Connection,
    sql: &str,
    params: Vec<SqlValue>,
    columns: &[Column],
) -> (res: Result<Vec<ReadCell>, QueryRowError>)
    ensures
        res matches Ok(cells) ==> row_read_as(cells@, columns@),
        res matches Ok(cells) ==> cells_have_kinds(cell_values(cells@), column_kinds(columns@)),
{
    let values = params.into_iter().map(
        |p| match p {
            SqlValue::Null => Value::Null,
            SqlValue::Integer(i) => Value::Integer(i),
            SqlValue::Text(t) => Value::Text(t),
        },
    );
    match conn.query_row(sql, rusqlite::params_from_iter(values), |row| read_row(row, columns)) {
        Ok(cells) => Ok(cells),
        Err(rusqlite::Error::QueryReturnedNoRows) => Err(QueryRowError::NoRows),
        Err(e) => Err(QueryRowError::Sqlite(e)),
    }
}

/// Compiles one SQL statement: a wrapper around `Connection::prepare`.
/// Whether it succeeds is SQLite's.
#[verifier::external_body]
pub(crate) fn prepare<'conn>(conn: &'conn rusqlite::Connection, sql: &str) -> (res: Result<
    rusqlite::Statement<'conn>,
    rusqlite::Error,
>) {
    conn.prepare(sql)
}

/// Runs a prepared query and reads every result row with `read_row`, in the
/// order SQLite returns them, stopping at the first error: a wrapper around
/// `Statement::query_map` and the iteration of its rows. Every row is as
/// `read_row` produced it: one cell per requested column, tagged with that
/// column's position and of its kind; what the cells hold is the
/// database's.
#[verifier::external_body]
pub(crate) fn query_map(
    stmt: &mut rusqlite::Statement,
    params: Vec<SqlValue>,
    columns: &[Column],
) -> (res: Result<Vec<Vec<ReadCell>>, rusqlite::Error>)
    ensures
        res matches Ok(rows) ==> forall|i: int|
            0 <= i < rows.len() ==> row_read_as(#[trigger] rows@[i]@, columns@),
        res matches Ok(rows) ==> forall|i: int|
            0 <= i < rows.len() ==> cells_have_kinds(
                cell_values(#[trigger] rows@[i]@),
                column_kinds(columns@),
            ),
{
    let values = params.into_iter().map(
        |p| match p {
            SqlValue::Null => Value::Null,
            SqlValue::Integer(i) => Value::Integer(i),
            SqlValue::Text(t) => Value::Text(t),
        },
    );
    stmt.query_map(rusqlite::params_from_iter(values), |row| read_row(row, columns))?.collect()
}

} // verus!
