//! The store: an SQLite database reached through `rusqlite`.
//!
//! Nothing is known here of what a database holds, so nothing is promised of
//! what the store answers. What is kept is what passed between the library
//! and the store: every request that goes through a [`Store`] stands, in
//! order, in its record of exchanges, with the values that were bound as the
//! store received them and with the answer that came back. The operations of
//! the library state their results over that record.

use vstd::prelude::*;
use crate::statements::{SqlStatement, StatementData};
use crate::value::{copy_bytes, params_data, SqlData, SqlParam, SqlValue};

verus! {

/// `rusqlite::Connection`, an open database.
#[verifier::external_type_specification]
#[verifier::external_body]
pub struct ExConnection(rusqlite::Connection);

/// `rusqlite::Error`, whatever the store or the binding layer reports.
#[verifier::external_type_specification]
#[verifier::external_body]
pub struct ExError(rusqlite::Error);

/// `rusqlite::Statement`, a prepared statement of a connection.
#[verifier::external_type_specification]
#[verifier::external_body]
pub struct ExStatement<'conn>(rusqlite::Statement<'conn>);

/// `rusqlite::Rows`, the cursor over the rows a query returns.
#[verifier::external_type_specification]
#[verifier::external_body]
pub struct ExRows<'stmt>(rusqlite::Rows<'stmt>);

/// `rusqlite::Row`, the row a cursor stands on.
#[verifier::external_type_specification]
#[verifier::external_body]
pub struct ExRow<'stmt>(rusqlite::Row<'stmt>);

/// `rusqlite::types::Value`, an owned value in one of SQLite's five storage
/// classes.
#[verifier::external_type_specification]
#[verifier::external_body]
pub struct ExValue(rusqlite::types::Value);

/// `Connection::execute_batch` runs the statements of `sql` one after the
/// other. Nothing is claimed of the outcome.
pub assume_specification[ rusqlite::Connection::execute_batch ](
    conn: &rusqlite::Connection,
    sql: &str,
) -> Result<(), rusqlite::Error>
;

/// `Connection::last_insert_rowid` gives the row identity of the latest
/// successful insertion on the connection. Nothing is claimed of its value.
pub assume_specification[ rusqlite::Connection::last_insert_rowid ](
    conn: &rusqlite::Connection,
) -> i64
;

/// `Connection::prepare` compiles one statement. Nothing is claimed of the
/// outcome.
pub assume_specification<'conn>[ rusqlite::Connection::prepare ](
    conn: &'conn rusqlite::Connection,
    sql: &str,
) -> Result<rusqlite::Statement<'conn>, rusqlite::Error>
;

/// `Statement::column_count` gives the number of columns of the rows the
/// statement returns. Nothing is claimed of its value.
pub assume_specification<'conn>[ rusqlite::Statement::<'conn>::column_count ](
    stmt: &rusqlite::Statement<'conn>,
) -> usize
;

/// `Rows::next` steps the cursor: the next row, `None` after the last one, or
/// the error of the step. Nothing is claimed of the outcome.
pub assume_specification<'stmt, 'a>[ rusqlite::Rows::<'stmt>::next ](
    rows: &'a mut rusqlite::Rows<'stmt>,
) -> Result<Option<&'a rusqlite::Row<'stmt>>, rusqlite::Error>
;

/// Opens the database file at `path` with `Connection::open`, creating it if
/// it does not exist. Nothing is claimed of the outcome.
#[verifier::external_body]
fn open_database(path: &str) -> (r: Result<rusqlite::Connection, rusqlite::Error>) {
    rusqlite::Connection::open(path)
}

/// What a `rusqlite::types::Value` holds: its storage class and, for every
/// class but NULL, its content. The type is opaque here, so what it holds
/// has this name, and the four items that make a `Value` say what they put
/// in it.
pub uninterp spec fn value_data(v: rusqlite::types::Value) -> SqlData;

/// The variant `Value::Null` of `rusqlite::types::Value`: it holds NULL.
#[verifier::external_body]
fn null_value() -> (v: rusqlite::types::Value)
    ensures
        value_data(v) == SqlData::Null,
{
    rusqlite::types::Value::Null
}

/// The variant `Value::Integer` of `rusqlite::types::Value`: it holds the
/// integer `i`.
#[verifier::external_body]
fn integer_value(i: i64) -> (v: rusqlite::types::Value)
    ensures
        value_data(v) == SqlData::Integer(i),
{
    rusqlite::types::Value::Integer(i)
}

/// The variant `Value::Text` of `rusqlite::types::Value`: it holds the text
/// `text`.
#[verifier::external_body]
fn text_value(text: String) -> (v: rusqlite::types::Value)
    ensures
        value_data(v) == SqlData::Text(text@),
{
    rusqlite::types::Value::Text(text)
}

/// The variant `Value::Blob` of `rusqlite::types::Value`: it holds the
/// bytes `bytes`.
#[verifier::external_body]
fn blob_value(bytes: Vec<u8>) -> (v: rusqlite::types::Value)
    ensures
        value_data(v) == SqlData::Blob(bytes@),
{
    rusqlite::types::Value::Blob(bytes)
}

/// Runs one statement that returns no rows with `Connection::execute`, its
/// placeholders bound to `values` in order; on success the store reports how
/// many rows changed. Nothing is claimed of the outcome.
#[verifier::external_body]
fn execute(
    conn: &rusqlite::Connection,
    sql: &str,
    values: &Vec<rusqlite::types::Value>,
) -> (r: Result<usize, rusqlite::Error>) {
    conn.execute(sql, rusqlite::params_from_iter(values.iter()))
}

/// Starts a query with `Statement::query`, the placeholders bound to `values`
/// in order. Nothing is claimed of the outcome.
#[verifier::external_body]
fn start_query<'s>(
    stmt: &'s mut rusqlite::Statement<'_>,
    values: &Vec<rusqlite::types::Value>,
) -> (r: Result<rusqlite::Rows<'s>, rusqlite::Error>) {
    stmt.query(rusqlite::params_from_iter(values.iter()))
}

/// Reads column `index` of a row with `Row::get` as a `Value` and hands it
/// over in the same storage class with the same content, a floating-point
/// number as its bits. Nothing is claimed of the outcome.
#[verifier::external_body]
fn column_value(row: &rusqlite::Row<'_>, index: usize) -> (r: Result<
    SqlValue,
    rusqlite::Error,
>) {
    row.get(index).map(|v| match v {
        rusqlite::types::Value::Null => SqlValue::Null,
        rusqlite::types::Value::Integer(i) => SqlValue::Integer(i),
        rusqlite::types::Value::Real(r) => SqlValue::Real(r.to_bits()),
        rusqlite::types::Value::Text(s) => SqlValue::Text(s),
        rusqlite::types::Value::Blob(b) => SqlValue::Blob(b),
    })
}

/// The text of a `rusqlite::Error`, as its `Display` writes it. Nothing is
/// claimed of the text.
#[verifier::external_body]
fn error_message(e: &rusqlite::Error) -> (s: String) {
    e.to_string()
}

/// One request that the library handed to the store.
pub enum Request {
    /// A batch of statements without placeholders.
    Batch { sql: Seq<char> },
    /// One statement that returns no rows, with its bound values.
    Change { statement: StatementData },
    /// One query, with its bound values and with the reading of its rows:
    /// a lenient reading takes a column that cannot be read as NULL, a
    /// strict one fails on it.
    Query { statement: StatementData, lenient: bool },
    /// The question for the identity of the row of the latest insertion.
    LastInsert,
}

/// What the store answered to a request.
pub enum Answer {
    /// The batch was run.
    Done,
    /// The statement was run and changed so many rows.
    Changed { count: usize },
    /// The query gave these rows, in this order.
    Rows { rows: Seq<Vec<SqlValue>> },
    /// The row of the latest insertion has this identity.
    RowId { id: i64 },
    /// The request failed; the text is the store's error.
    Failed { text: Seq<char> },
}

/// A request together with the answer it got.
pub struct Exchange {
    pub request: Request,
    pub answer: Answer,
}

/// A query with its bound values and a strict reading of its rows, as a
/// request.
pub open spec fn query_of(sql: Seq<char>, values: Seq<SqlData>) -> Request {
    Request::Query { statement: StatementData { sql, values }, lenient: false }
}

/// A query with its bound values and a lenient reading of its rows, as a
/// request.
pub open spec fn lenient_query_of(sql: Seq<char>, values: Seq<SqlData>) -> Request {
    Request::Query { statement: StatementData { sql, values }, lenient: true }
}

/// The answer that stands behind the result of running a batch.
pub open spec fn batch_answer(r: Result<(), String>) -> Answer {
    match r {
        Ok(_) => Answer::Done,
        Err(message) => Answer::Failed { text: message@ },
    }
}

/// The answer that stands behind the result of running a statement.
pub open spec fn change_answer(r: Result<usize, String>) -> Answer {
    match r {
        Ok(count) => Answer::Changed { count },
        Err(message) => Answer::Failed { text: message@ },
    }
}

/// The answer that stands behind the result of a query.
pub open spec fn rows_answer(r: Result<Vec<Vec<SqlValue>>, String>) -> Answer {
    match r {
        Ok(rows) => Answer::Rows { rows: rows@ },
        Err(message) => Answer::Failed { text: message@ },
    }
}

/// Every row has the same number of columns.
pub open spec fn is_table(rows: Seq<Vec<SqlValue>>) -> bool {
    forall|i: int, j: int|
        0 <= i < rows.len() && 0 <= j < rows.len() ==> (#[trigger] rows[i])@.len() == (
        #[trigger] rows[j])@.len()
}

/// Whether `later` is `earlier` with further exchanges after it.
pub open spec fn extends(later: Seq<Exchange>, earlier: Seq<Exchange>) -> bool {
    earlier.len() <= later.len() && later.subrange(0, earlier.len() as int) == earlier
}

/// Whether `later` is `earlier` with one exchange after it, in which
/// `request` was asked.
pub open spec fn asked(later: Seq<Exchange>, earlier: Seq<Exchange>, request: Request) -> bool {
    &&& later.len() == earlier.len() + 1
    &&& later.drop_last() == earlier
    &&& later.last().request == request
}

/// Whether `r` gives back what the store answered to a statement: success
/// where the statement was run, and otherwise the store's error as it is.
pub open spec fn written<T>(answer: Answer, r: Result<T, String>) -> bool {
    match answer {
        Answer::Changed { .. } => r is Ok,
        Answer::Failed { text } => r matches Err(message) && message@ == text,
        _ => false,
    }
}

/// What an insertion adds to the record, and what it gives. The statement
/// is handed to the store. Where the store ran it, the store is asked for
/// the identity of the new row, and that identity is the result; where the
/// store failed, its error is the result as it is, and nothing more is
/// asked.
pub open spec fn inserted(
    added: Seq<Exchange>,
    statement: StatementData,
    r: Result<i64, String>,
) -> bool {
    &&& added.len() >= 1
    &&& added[0].request == (Request::Change { statement })
    &&& match added[0].answer {
        Answer::Changed { .. } => {
            &&& added.len() == 2
            &&& added[1].request == Request::LastInsert
            &&& r matches Ok(id) && added[1].answer == (Answer::RowId { id })
        },
        Answer::Failed { text } => {
            &&& added.len() == 1
            &&& r matches Err(message) && message@ == text
        },
        _ => false,
    }
}

/// An open database together with the record of what passed between the
/// library and it.
pub struct Store {
    conn: rusqlite::Connection,
    log: Ghost<Seq<Exchange>>,
}

/// Hands a bound value to the store: the value that the store receives holds
/// what the parameter holds, in the same storage class.
fn bind(param: &SqlParam) -> (v: rusqlite::types::Value)
    ensures
        value_data(v) == param@,
{
    match param {
        SqlParam::Null => null_value(),
        SqlParam::Integer(i) => integer_value(*i),
        SqlParam::Text(s) => text_value(s.clone()),
        SqlParam::Blob(b) => blob_value(copy_bytes(b)),
    }
}

/// What a list of values holds, value by value.
pub open spec fn values_data(values: Seq<rusqlite::types::Value>) -> Seq<SqlData> {
    values.map_values(|v: rusqlite::types::Value| value_data(v))
}

/// Hands a list of bound values to the store, one for one and in order:
/// the values that the store receives hold what the parameters hold.
fn bind_all(params: &Vec<SqlParam>) -> (values: Vec<rusqlite::types::Value>)
    ensures
        values_data(values@) == params_data(params@),
{
    let mut values: Vec<rusqlite::types::Value> = Vec::new();
    let mut i: usize = 0;
    while i < params.len()
        invariant
            i <= params@.len(),
            values@.len() == i,
            forall|k: int| 0 <= k < i ==> value_data(#[trigger] values@[k]) == params@[k]@,
        decreases params@.len() - i,
    {
        values.push(bind(&params[i]));
        i = i + 1;
    }
    assert(values_data(values@) =~= params_data(params@));
    values
}

/// What becomes of the reading of one column. A value that was read is
/// kept as it is. A column that could not be read is NULL in a lenient
/// reading, as if the column held nothing, and the error of a strict one.
pub fn cell_read(outcome: Result<SqlValue, String>, lenient: bool) -> (r: Result<
    SqlValue,
    String,
>)
    ensures
        match outcome {
            Ok(v) => r == Ok::<SqlValue, String>(v),
            Err(message) => if lenient {
                r == Ok::<SqlValue, String>(SqlValue::Null)
            } else {
                r == Err::<SqlValue, String>(message)
            },
        },
{
    match outcome {
        Ok(v) => Ok(v),
        Err(message) => if lenient {
            Ok(SqlValue::Null)
        } else {
            Err(message)
        },
    }
}

/// What becomes of one step of a cursor. A row that was read is added after
/// the rows collected so far, and the collecting goes on. The end of the
/// rows ends the collecting well, and a failed step ends it with its error;
/// neither changes what was collected.
pub fn collect_step(
    out: &mut Vec<Vec<SqlValue>>,
    step: Result<Option<Vec<SqlValue>>, String>,
) -> (done: Option<Result<(), String>>)
    ensures
        match step {
            Ok(Some(row)) => final(out)@ == old(out)@.push(row) && done is None,
            Ok(None) => final(out)@ == old(out)@ && done == Some(Ok::<(), String>(())),
            Err(message) => final(out)@ == old(out)@ && done == Some(
                Err::<(), String>(message),
            ),
        },
{
    match step {
        Ok(Some(row)) => {
            out.push(row);
            None
        },
        Ok(None) => Some(Ok(())),
        Err(message) => Some(Err(message)),
    }
}

/// What becomes of the reading of one column when it is added to the
/// columns of its row read so far: the value that [`cell_read`] gives is
/// added, and its error ends the reading of the row.
pub fn row_step(values: &mut Vec<SqlValue>, cell: Result<SqlValue, String>) -> (failed: Option<
    String,
>)
    ensures
        match cell {
            Ok(v) => final(values)@ == old(values)@.push(v) && failed is None,
            Err(message) => final(values)@ == old(values)@ && failed == Some(message),
        },
{
    match cell {
        Ok(v) => {
            values.push(v);
            None
        },
        Err(message) => Some(message),
    }
}

/// Reads the columns of the row a cursor stands on, the first column first.
/// What becomes of each column is what [`cell_read`] and [`row_step`] say.
fn read_row(row: &rusqlite::Row<'_>, width: usize, lenient: bool) -> (r: Result<
    Vec<SqlValue>,
    String,
>)
    ensures
        r matches Ok(values) ==> values@.len() == width,
        lenient ==> r is Ok,
{
    let mut values: Vec<SqlValue> = Vec::new();
    let mut c: usize = 0;
    while c < width
        invariant
            c <= width,
            values@.len() == c,
        decreases width - c,
    {
        let outcome = match column_value(row, c) {
            Ok(v) => Ok(v),
            Err(e) => Err(error_message(&e)),
        };
        if let Some(message) = row_step(&mut values, cell_read(outcome, lenient)) {
            return Err(message);
        }
        c = c + 1;
    }
    Ok(values)
}

/// Runs a query on a connection and collects its rows, in the order in which
/// the store returns them, each with the values of all its columns. What
/// becomes of each step of the cursor is what [`collect_step`] says.
fn fetch(
    conn: &rusqlite::Connection,
    sql: &str,
    values: &Vec<rusqlite::types::Value>,
    lenient: bool,
) -> (r: Result<Vec<Vec<SqlValue>>, String>)
    ensures
        r matches Ok(rows) ==> is_table(rows@),
{
    let mut stmt = match conn.prepare(sql) {
        Ok(s) => s,
        Err(e) => {
            return Err(error_message(&e));
        },
    };
    let width = stmt.column_count();
    let mut rows = match start_query(&mut stmt, values) {
        Ok(r) => r,
        Err(e) => {
            return Err(error_message(&e));
        },
    };
    let mut out: Vec<Vec<SqlValue>> = Vec::new();
    while out.len() < usize::MAX
        invariant
            forall|i: int| 0 <= i < out@.len() ==> (#[trigger] out@[i])@.len() == width,
        decreases usize::MAX - out@.len(),
    {
        let step = match rows.next() {
            Ok(Some(row)) => match read_row(row, width, lenient) {
                Ok(values) => Ok(Some(values)),
                Err(message) => Err(message),
            },
            Ok(None) => Ok(None),
            Err(e) => Err(error_message(&e)),
        };
        match collect_step(&mut out, step) {
            None => {},
            Some(Ok(())) => {
                return Ok(out);
            },
            Some(Err(message)) => {
                return Err(message);
            },
        }
    }
    Err("more rows than can be held".to_string())
}

impl Store {
    /// What passed between the library and the store through this handle,
    /// the earliest exchange first.
    pub closed spec fn exchanges(&self) -> Seq<Exchange> {
        self.log@
    }

    /// The connection that the store works on.
    pub closed spec fn link(&self) -> rusqlite::Connection {
        self.conn
    }

    /// Takes over an open connection: the store works on it, and nothing
    /// passed through the handle yet.
    pub fn over(conn: rusqlite::Connection) -> (store: Store)
        ensures
            store.link() == conn,
            store.exchanges() == Seq::<Exchange>::empty(),
    {
        Store { conn, log: Ghost(Seq::empty()) }
    }

    /// What an attempt to open a database comes to: a store over the
    /// connection where one was opened, with nothing passed yet, and an
    /// error where none was.
    pub fn opened(outcome: Result<rusqlite::Connection, rusqlite::Error>) -> (r: Result<
        Store,
        String,
    >)
        ensures
            r is Ok <==> outcome is Ok,
            r matches Ok(store) ==> store.link() == outcome->Ok_0 && store.exchanges()
                == Seq::<Exchange>::empty(),
    {
        match outcome {
            Ok(conn) => Ok(Store::over(conn)),
            Err(e) => Err(error_message(&e)),
        }
    }

    /// Opens the database file at `path`, creating it where it does not
    /// exist. The error of the store comes back as its text.
    pub fn open(path: &str) -> (r: Result<Store, String>)
        ensures
            r matches Ok(store) ==> store.exchanges() == Seq::<Exchange>::empty(),
    {
        Store::opened(open_database(path))
    }

    /// The connection that the store works on. What is asked of it directly
    /// is not kept in the record of exchanges.
    pub fn connection(&self) -> (conn: &rusqlite::Connection)
        ensures
            *conn == self.link(),
    {
        &self.conn
    }

    /// The identity that the store gave to the row of the latest successful
    /// insertion. The question and the answer are added to the record.
    pub fn last_insert_rowid(&mut self) -> (id: i64)
        ensures
            final(self).exchanges() == old(self).exchanges().push(
                Exchange { request: Request::LastInsert, answer: Answer::RowId { id } },
            ),
            final(self).link() == old(self).link(),
    {
        let id = self.conn.last_insert_rowid();
        self.log = Ghost(
            self.log@.push(
                Exchange { request: Request::LastInsert, answer: Answer::RowId { id } },
            ),
        );
        id
    }

    /// Runs a statement that returns no rows; on success the store tells how
    /// many rows changed, and its error comes back as its text. The
    /// statement and the answer are added to the record.
    pub fn run(&mut self, stmt: &SqlStatement) -> (r: Result<usize, String>)
        ensures
            final(self).exchanges() == old(self).exchanges().push(
                Exchange {
                    request: Request::Change { statement: stmt@ },
                    answer: change_answer(r),
                },
            ),
            final(self).link() == old(self).link(),
    {
        let values = bind_all(&stmt.params);
        let r = match execute(&self.conn, stmt.sql.as_str(), &values) {
            Ok(changed) => Ok(changed),
            Err(e) => Err(error_message(&e)),
        };
        self.log = Ghost(
            self.log@.push(
                Exchange {
                    request: Request::Change {
                        statement: StatementData { sql: stmt.sql@, values: values_data(values@) },
                    },
                    answer: change_answer(r),
                },
            ),
        );
        r
    }

    /// Runs a batch of statements without placeholders; the error of the
    /// store comes back as its text. The batch and the answer are added to
    /// the record.
    pub fn run_batch(&mut self, sql: &str) -> (r: Result<(), String>)
        ensures
            final(self).exchanges() == old(self).exchanges().push(
                Exchange { request: Request::Batch { sql: sql@ }, answer: batch_answer(r) },
            ),
            final(self).link() == old(self).link(),
    {
        let r = match self.conn.execute_batch(sql) {
            Ok(()) => Ok(()),
            Err(e) => Err(error_message(&e)),
        };
        self.log = Ghost(
            self.log@.push(
                Exchange { request: Request::Batch { sql: sql@ }, answer: batch_answer(r) },
            ),
        );
        r
    }

    /// Runs a query and collects its rows, in the order in which the store
    /// returns them, each with the values of all its columns; the error of
    /// the store, also that of a column that cannot be read, comes back as
    /// its text. The query and the answer are added to the record.
    pub fn query_rows(&mut self, sql: &str, params: &Vec<SqlParam>) -> (r: Result<
        Vec<Vec<SqlValue>>,
        String,
    >)
        ensures
            final(self).exchanges() == old(self).exchanges().push(
                Exchange { request: query_of(sql@, params_data(params@)), answer: rows_answer(r) },
            ),
            final(self).link() == old(self).link(),
            r matches Ok(rows) ==> is_table(rows@),
    {
        let values = bind_all(params);
        let r = fetch(&self.conn, sql, &values, false);
        self.log = Ghost(
            self.log@.push(
                Exchange { request: query_of(sql@, values_data(values@)), answer: rows_answer(r) },
            ),
        );
        r
    }

    /// Runs a query as [`Store::query_rows`] does, but takes a column that
    /// cannot be read as NULL where that one fails. The record tells the two
    /// readings apart.
    pub fn query_rows_lenient(&mut self, sql: &str, params: &Vec<SqlParam>) -> (r: Result<
        Vec<Vec<SqlValue>>,
        String,
    >)
        ensures
            final(self).exchanges() == old(self).exchanges().push(
                Exchange {
                    request: lenient_query_of(sql@, params_data(params@)),
                    answer: rows_answer(r),
                },
            ),
            final(self).link() == old(self).link(),
            r matches Ok(rows) ==> is_table(rows@),
    {
        let values = bind_all(params);
        let r = fetch(&self.conn, sql, &values, true);
        self.log = Ghost(
            self.log@.push(
                Exchange {
                    request: lenient_query_of(sql@, values_data(values@)),
                    answer: rows_answer(r),
                },
            ),
        );
        r
    }
}

} // verus!
