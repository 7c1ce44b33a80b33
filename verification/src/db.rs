//! The embedded-database backend: labelled result rows and a thin,
//! trusted seam around the sqlite crate, with the row-collection loops
//! verified on this side of it.
use vstd::prelude::*;

verus! {

/// One labelled cell of a result row: the column name and the cell's
/// textual value.
#[derive(Clone, Debug, PartialEq, Eq)]
pub struct Record {
    pub label: String,
    pub value: String,
}

impl Record {
    pub fn new(label: String, value: String) -> (r: Record)
        ensures
            r.label == label,
            r.value == value,
    {
        Record { label, value }
    }

    pub fn value_to_string(&self) -> (r: String)
        ensures
            r@ == self.value@,
    {
        self.value.clone()
    }
}

/// One result row: an ordered sequence of labelled cells.
#[derive(Clone, Debug, PartialEq, Eq)]
pub struct Row {
    pub record: Vec<Record>,
}

/// The labels of a row's cells, in column order.
pub open spec fn row_labels(row: Row) -> Seq<Seq<char>> {
    row.record@.map_values(|c: Record| c.label@)
}

/// The values of a row's cells, in column order.
pub open spec fn row_values(row: Row) -> Seq<Seq<char>> {
    row.record@.map_values(|c: Record| c.value@)
}

impl Row {
    pub fn new() -> (r: Row)
        ensures
            r.record@ =~= Seq::<Record>::empty(),
    {
        Row { record: Vec::new() }
    }

    pub fn push(&mut self, record: Record)
        ensures
            final(self).record@ =~= old(self).record@.push(record),
    {
        self.record.push(record);
    }
}

/// Relies on sqlite::Connection existing as a type; a session handle,
/// opaque to the verifier.
#[verifier::external_type_specification]
#[verifier::external_body]
pub struct ExConnection(sqlite::Connection);

/// Relies on sqlite::Statement existing as a type; a prepared
/// statement, opaque to the verifier.
#[verifier::external_type_specification]
#[verifier::external_body]
pub struct ExStatement<'l>(sqlite::Statement<'l>);

/// One in-memory database session.
pub struct Sqlite {
    connection: sqlite::Connection,
}

/// Relies on Statement::next: advance the statement one step; `true`
/// when a row is available for reading, `false` when the statement is
/// done. What comes back depends on the database's state, so nothing
/// more is assumed of it.
#[verifier::external_body]
fn step(stmt: &mut sqlite::Statement<'_>) -> (r: Result<bool, String>) {
    match stmt.next() {
        Ok(sqlite::State::Row) => Ok(true),
        Ok(sqlite::State::Done) => Ok(false),
        Err(e) => Err(e.to_string()),
    }
}

/// Relies on Statement::read for String: the text of one column of the
/// current row by position; `Err` on an out-of-range index or an
/// unreadable value, never a fault.
#[verifier::external_body]
fn read_column(stmt: &sqlite::Statement<'_>, i: usize) -> (r: Result<String, String>) {
    stmt.read::<String, _>(i).map_err(|e| format!("failed read, index: {i}: {e}"))
}

/// Relies on Statement::read for String with a named column; `Err` on
/// an unknown name or an unreadable value, never a fault.
#[verifier::external_body]
fn read_field(stmt: &sqlite::Statement<'_>, field: &str) -> (r: Result<String, String>) {
    stmt.read::<String, _>(field).map_err(|e| format!("failed read, field: {field}: {e}"))
}

/// Relies on Statement::column_names: the names of the statement's
/// result columns, fixed when the statement was prepared.
#[verifier::external_body]
fn column_names(stmt: &sqlite::Statement<'_>) -> (r: Vec<String>) {
    stmt.column_names().to_vec()
}

impl Sqlite {
    /// Relies on sqlite::open: opens a fresh in-memory database. A
    /// backend that cannot even be constructed is a setup fault, the one
    /// condition that aborts the whole run.
    #[verifier::external_body]
    pub fn new() -> (r: Sqlite) {
        Sqlite { connection: sqlite::open(":memory:").unwrap() }
    }

    /// Relies on Connection::prepare: compiles one SQL statement
    /// against this session.
    #[verifier::external_body]
    pub fn prepare<'l>(&'l self, sql: &str) -> (r: Result<sqlite::Statement<'l>, String>) {
        self.connection.prepare(sql).map_err(
            |e| format!("failed to prepare statement, sql: {sql}: {e}"),
        )
    }

    /// Relies on Connection::execute: runs a statement from which no
    /// rows are expected.
    #[verifier::external_body]
    pub fn execute(&self, sql: &str) -> (r: Result<(), String>) {
        self.connection.execute(sql).map_err(|e| format!("failed execute, sql: {sql}: {e}"))
    }

    /// Run a query and collect each row's cells under the caller's
    /// field names: every returned row carries exactly those labels, in
    /// that order.
    pub fn select_with_fields(&self, sql: &str, fields: &[&str]) -> (r: Result<Vec<Row>, String>)
        ensures
            r matches Ok(rows) ==> forall|i: int|
                0 <= i < rows@.len() ==> row_labels(#[trigger] rows@[i]) == fields.deep_view(),
    {
        let mut stmt = match self.prepare(sql) {
            Ok(stmt) => stmt,
            Err(e) => {
                return Err(e);
            },
        };
        let mut rows: Vec<Row> = Vec::new();
        let mut fuel: usize = usize::MAX;
        while fuel > 0
            invariant
                forall|i: int|
                    0 <= i < rows@.len() ==> row_labels(#[trigger] rows@[i]) == fields.deep_view(),
            decreases fuel,
        {
            match step(&mut stmt) {
                Err(e) => {
                    return Err(e);
                },
                Ok(false) => {
                    return Ok(rows);
                },
                Ok(true) => {
                    let mut row = Row::new();
                    let mut j: usize = 0;
                    while j < fields.len()
                        invariant
                            0 <= j <= fields@.len(),
                            row.record@.len() == j,
                            forall|k: int|
                                0 <= k < j ==> #[trigger] row.record@[k].label@
                                    == fields.deep_view()[k],
                        decreases fields@.len() - j,
                    {
                        let value = match read_field(&stmt, fields[j]) {
                            Ok(value) => value,
                            Err(e) => {
                                return Err(e);
                            },
                        };
                        let label = fields[j].to_owned();
                        row.push(Record::new(label, value));
                        proof {
                            assert(fields.deep_view()[j as int] == fields@[j as int].deep_view());
                        }
                        j = j + 1;
                    }
                    proof {
                        assert(row_labels(row) =~= fields.deep_view());
                    }
                    rows.push(row);
                },
            }
            fuel = fuel - 1;
        }
        Err(String::from_str("row limit exceeded"))
    }

    /// Run a query and collect each row's cells under the column names
    /// the statement itself reports: all returned rows carry the same
    /// labels in the same order.
    pub fn select(&self, sql: &str) -> (r: Result<Vec<Row>, String>)
        ensures
            r matches Ok(rows) ==> forall|i: int, j: int|
                0 <= i < rows@.len() && 0 <= j < rows@.len() ==> row_labels(#[trigger] rows@[i])
                    == row_labels(#[trigger] rows@[j]),
    {
        let mut stmt = match self.prepare(sql) {
            Ok(stmt) => stmt,
            Err(e) => {
                return Err(e);
            },
        };
        let names = column_names(&stmt);
        let mut rows: Vec<Row> = Vec::new();
        let mut fuel: usize = usize::MAX;
        while fuel > 0
            invariant
                forall|i: int|
                    0 <= i < rows@.len() ==> row_labels(#[trigger] rows@[i]) == names.deep_view(),
            decreases fuel,
        {
            match step(&mut stmt) {
                Err(e) => {
                    return Err(e);
                },
                Ok(false) => {
                    return Ok(rows);
                },
                Ok(true) => {
                    let mut row = Row::new();
                    let mut j: usize = 0;
                    while j < names.len()
                        invariant
                            0 <= j <= names@.len(),
                            row.record@.len() == j,
                            forall|k: int|
                                0 <= k < j ==> #[trigger] row.record@[k].label@
                                    == names.deep_view()[k],
                        decreases names@.len() - j,
                    {
                        let value = match read_column(&stmt, j) {
                            Ok(value) => value,
                            Err(e) => {
                                return Err(e);
                            },
                        };
                        let label = names[j].clone();
                        row.push(Record::new(label, value));
                        proof {
                            assert(names.deep_view()[j as int] == names@[j as int]@);
                        }
                        j = j + 1;
                    }
                    proof {
                        assert(row_labels(row) =~= names.deep_view());
                    }
                    rows.push(row);
                },
            }
            fuel = fuel - 1;
        }
        Err(String::from_str("row limit exceeded"))
    }
}

/// Drop the labels: each row reduced to its cells' text values, in
/// order.
pub fn rows_to_cells(rows: Vec<Row>) -> (r: Vec<Vec<String>>)
    ensures
        r@.len() == rows@.len(),
        forall|i: int| 0 <= i < rows@.len() ==> #[trigger] r.deep_view()[i] == row_values(rows@[i]),
{
    let mut r: Vec<Vec<String>> = Vec::new();
    let mut i: usize = 0;
    while i < rows.len()
        invariant
            0 <= i <= rows@.len(),
            r@.len() == i,
            forall|k: int| 0 <= k < i ==> #[trigger] r.deep_view()[k] == row_values(rows@[k]),
        decreases rows@.len() - i,
    {
        let row = &rows[i];
        let mut cells: Vec<String> = Vec::new();
        let mut j: usize = 0;
        while j < row.record.len()
            invariant
                0 <= j <= row.record@.len(),
                row == rows@[i as int],
                cells@.len() == j,
                forall|k: int| 0 <= k < j ==> #[trigger] cells@[k]@ == row.record@[k].value@,
            decreases row.record@.len() - j,
        {
            cells.push(row.record[j].value_to_string());
            j = j + 1;
        }
        proof {
            assert(cells.deep_view() =~= row_values(rows@[i as int]));
        }
        let ghost old_r = r@;
        let ghost old_dv = r.deep_view();
        r.push(cells);
        proof {
            assert forall|k: int| 0 <= k < i + 1 implies #[trigger] r.deep_view()[k] == row_values(
                rows@[k],
            ) by {
                assert(r.deep_view()[k] == r@[k].deep_view());
                if k < i {
                    assert(r@[k] == old_r[k]);
                    assert(old_dv[k] == old_r[k].deep_view());
                    assert(old_dv[k] == row_values(rows@[k]));
                } else {
                    assert(r@[k] == cells);
                }
            }
        }
        i = i + 1;
    }
    r
}

impl Sqlite {
    /// The name of the engine this backend wraps.
    pub fn engine_name(&self) -> (r: &'static str)
        ensures
            r@ == "sqlite"@,
    {
        "sqlite"
    }
}

impl crate::Backend for Sqlite {
    fn execute(&mut self, sql: &str) -> Result<(), String> {
        Sqlite::execute(self, sql)
    }

    fn query(&mut self, sql: &str) -> Result<Vec<Vec<String>>, String> {
        match self.select(sql) {
            Err(e) => Err(e),
            Ok(rows) => Ok(rows_to_cells(rows)),
        }
    }
}

} // verus!
