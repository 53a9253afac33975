//! The schema and its reconciliation: the tables are created where they are
//! absent, and the columns that a later version added are added to a table
//! that an earlier version created. Nothing is ever dropped or renamed.

use vstd::prelude::*;
use crate::store::{
    asked, extends, query_of, rows_answer, Answer, Exchange, Request, Store,
};
use crate::persons::INTERNS_TABLE;
use crate::rows::{
    count_from_rows, count_of, fault, fault_text, text_at, text_of, Fault, RowError,
};
use crate::statements::{SqlStatement, StatementData};
use crate::value::{params_data, row_data, SqlData, SqlParam, SqlValue};

verus! {

/// Switches on the enforcement of foreign keys for the connection. Deleting a
/// person removes its assignments and evaluations only while it is on.
pub const FOREIGN_KEYS_SQL: &'static str = "PRAGMA foreign_keys = ON;";

/// Asks whether the enforcement of foreign keys is on for the connection:
/// one row with 1 where it is.
pub const FOREIGN_KEYS_CHECK_SQL: &'static str = "PRAGMA foreign_keys";

/// What a reconciliation fails with when the store does not report the
/// enforcement of foreign keys as on after it was asked to switch it on.
pub const FOREIGN_KEYS_OFF_MESSAGE: &'static str =
    "foreign key enforcement could not be switched on";

/// Creates the persons' table as the first version knew it.
pub const CREATE_INTERNS_SQL: &'static str =
    "CREATE TABLE IF NOT EXISTS interns (
        id INTEGER PRIMARY KEY AUTOINCREMENT,
        first_name TEXT NOT NULL,
        last_name TEXT NOT NULL,
        school TEXT NOT NULL,
        department TEXT NOT NULL,
        start_date TEXT NOT NULL,
        end_date TEXT,
        status TEXT NOT NULL,
        contact TEXT NOT NULL,
        email TEXT NOT NULL,
        cv_path TEXT,
        photo_path TEXT
    );";

/// Indexes the persons by family name, then given name: the order of the
/// list.
pub const INDEX_INTERNS_SQL: &'static str =
    "CREATE INDEX IF NOT EXISTS idx_interns_name ON interns(last_name, first_name);";

/// Creates the assignments' table and indexes it by owner and by due date.
/// An assignment goes when its person is deleted.
pub const CREATE_ASSIGNMENTS_SQL: &'static str =
    "CREATE TABLE IF NOT EXISTS assignments (
        id INTEGER PRIMARY KEY AUTOINCREMENT,
        intern_id INTEGER NOT NULL,
        project_type TEXT NOT NULL,
        task_description TEXT NOT NULL,
        due_date TEXT NOT NULL,
        status TEXT NOT NULL,
        file_path TEXT,
        created_at TEXT NOT NULL DEFAULT (datetime('now')),
        FOREIGN KEY (intern_id) REFERENCES interns(id) ON DELETE CASCADE
    );
    CREATE INDEX IF NOT EXISTS idx_assignments_intern ON assignments(intern_id);
    CREATE INDEX IF NOT EXISTS idx_assignments_due ON assignments(due_date);";

/// Creates the evaluations' table and indexes it by owner. The store refuses
/// a score outside 0 to 100, and an evaluation goes when its person is
/// deleted.
pub const CREATE_EVALUATIONS_SQL: &'static str =
    "CREATE TABLE IF NOT EXISTS evaluations (
        id INTEGER PRIMARY KEY AUTOINCREMENT,
        intern_id INTEGER NOT NULL,
        label TEXT NOT NULL,
        score INTEGER NOT NULL CHECK(score BETWEEN 0 AND 100),
        created_at TEXT NOT NULL DEFAULT (datetime('now')),
        FOREIGN KEY (intern_id) REFERENCES interns(id) ON DELETE CASCADE
    );
    CREATE INDEX IF NOT EXISTS idx_eval_intern ON evaluations(intern_id);";

/// Adds the six attachment columns to the persons' table in one step, for a
/// table that has none of them.
pub const ADD_FILE_COLUMNS_SQL: &'static str =
    "ALTER TABLE interns ADD COLUMN cv_name TEXT;
    ALTER TABLE interns ADD COLUMN cv_mime TEXT;
    ALTER TABLE interns ADD COLUMN cv_blob BLOB;
    ALTER TABLE interns ADD COLUMN photo_name TEXT;
    ALTER TABLE interns ADD COLUMN photo_mime TEXT;
    ALTER TABLE interns ADD COLUMN photo_blob BLOB;";

/// The direction of a migration.
#[derive(Clone, Copy, Debug, PartialEq, Eq)]
pub enum MigrationKind {
    Up,
    Down,
}

/// One step of the schema's history.
#[derive(Clone, Copy, Debug, PartialEq, Eq)]
pub struct Migration {
    pub version: i64,
    pub description: &'static str,
    pub sql: &'static str,
    pub kind: MigrationKind,
}

/// A migration as its version, its description, its statements and its
/// direction.
pub type MigrationStep = (int, Seq<char>, Seq<char>, MigrationKind);

/// The history of the schema: five steps upward, numbered from one.
pub open spec fn migration_history() -> Seq<MigrationStep> {
    seq![
        (1, "create_intern_table"@, CREATE_INTERNS_SQL@, MigrationKind::Up),
        (2, "add_basic_indexes"@, INDEX_INTERNS_SQL@, MigrationKind::Up),
        (3, "create_assignments_table"@, CREATE_ASSIGNMENTS_SQL@, MigrationKind::Up),
        (4, "create_evaluations_table"@, CREATE_EVALUATIONS_SQL@, MigrationKind::Up),
        (5, "add_blob_columns_for_files"@, ADD_FILE_COLUMNS_SQL@, MigrationKind::Up),
    ]
}

/// The migrations of a list, each as its version, description, statements
/// and direction.
pub open spec fn migration_steps(list: Seq<Migration>) -> Seq<MigrationStep> {
    list.map_values(|m: Migration| (m.version as int, m.description@, m.sql@, m.kind))
}

/// The migrations that build the schema from nothing, in the order in which
/// they apply: all of them upward, their versions counting from one.
pub fn get_migrations() -> (list: Vec<Migration>)
    ensures
        migration_steps(list@) == migration_history(),
{
    let mut list: Vec<Migration> = Vec::new();
    list.push(
        Migration {
            version: 1,
            description: "create_intern_table",
            sql: CREATE_INTERNS_SQL,
            kind: MigrationKind::Up,
        },
    );
    list.push(
        Migration {
            version: 2,
            description: "add_basic_indexes",
            sql: INDEX_INTERNS_SQL,
            kind: MigrationKind::Up,
        },
    );
    list.push(
        Migration {
            version: 3,
            description: "create_assignments_table",
            sql: CREATE_ASSIGNMENTS_SQL,
            kind: MigrationKind::Up,
        },
    );
    list.push(
        Migration {
            version: 4,
            description: "create_evaluations_table",
            sql: CREATE_EVALUATIONS_SQL,
            kind: MigrationKind::Up,
        },
    );
    list.push(
        Migration {
            version: 5,
            description: "add_blob_columns_for_files",
            sql: ADD_FILE_COLUMNS_SQL,
            kind: MigrationKind::Up,
        },
    );
    assert(migration_steps(list@) =~= migration_history());
    list
}

/// A column that reconciliation makes sure of: its name and its type.
#[derive(Clone, Copy, Debug, PartialEq, Eq)]
pub struct ColumnDef {
    pub name: &'static str,
    pub sql_type: &'static str,
}

/// The six attachment columns of the persons' table, each with its type, in
/// the order in which reconciliation makes sure of them.
pub open spec fn required_columns() -> Seq<(Seq<char>, Seq<char>)> {
    seq![
        ("cv_name"@, "TEXT"@),
        ("cv_mime"@, "TEXT"@),
        ("cv_blob"@, "BLOB"@),
        ("photo_name"@, "TEXT"@),
        ("photo_mime"@, "TEXT"@),
        ("photo_blob"@, "BLOB"@),
    ]
}

/// The column definitions of a list, each as its name and its type.
pub open spec fn column_defs(list: Seq<ColumnDef>) -> Seq<(Seq<char>, Seq<char>)> {
    list.map_values(|c: ColumnDef| (c.name@, c.sql_type@))
}

/// The columns that reconciliation makes sure of on the persons' table.
pub fn attachment_columns() -> (list: Vec<ColumnDef>)
    ensures
        column_defs(list@) == required_columns(),
{
    let mut list: Vec<ColumnDef> = Vec::new();
    list.push(ColumnDef { name: "cv_name", sql_type: "TEXT" });
    list.push(ColumnDef { name: "cv_mime", sql_type: "TEXT" });
    list.push(ColumnDef { name: "cv_blob", sql_type: "BLOB" });
    list.push(ColumnDef { name: "photo_name", sql_type: "TEXT" });
    list.push(ColumnDef { name: "photo_mime", sql_type: "TEXT" });
    list.push(ColumnDef { name: "photo_blob", sql_type: "BLOB" });
    assert(column_defs(list@) =~= required_columns());
    list
}

/// The query that lists the columns of a table: `PRAGMA table_info('table')`.
pub open spec fn table_info_text(table: Seq<char>) -> Seq<char> {
    "PRAGMA table_info('"@ + table + "')"@
}

/// The statement that adds a column: `ALTER TABLE table ADD COLUMN column type`.
pub open spec fn add_column_text(table: Seq<char>, column: Seq<char>, sql_type: Seq<char>) -> Seq<
    char,
> {
    "ALTER TABLE "@ + table + " ADD COLUMN "@ + column + " "@ + sql_type
}

/// What a failed addition of a column is reported with.
pub open spec fn add_column_failure_text(
    table: Seq<char>,
    column: Seq<char>,
    detail: Seq<char>,
) -> Seq<char> {
    "ALTER TABLE "@ + table + " ADD COLUMN "@ + column + " failed: "@ + detail
}

/// The query that lists the columns of `table`.
pub fn table_info_sql(table: &str) -> (sql: String)
    ensures
        sql@ == table_info_text(table@),
{
    let mut sql = String::new();
    sql.append("PRAGMA table_info('");
    sql.append(table);
    sql.append("')");
    assert(sql@ =~= table_info_text(table@));
    sql
}

/// The statement that adds `column` of type `sql_type` to `table`.
pub fn add_column_sql(table: &str, column: &str, sql_type: &str) -> (sql: String)
    ensures
        sql@ == add_column_text(table@, column@, sql_type@),
{
    let mut sql = String::new();
    sql.append("ALTER TABLE ");
    sql.append(table);
    sql.append(" ADD COLUMN ");
    sql.append(column);
    sql.append(" ");
    sql.append(sql_type);
    assert(sql@ =~= add_column_text(table@, column@, sql_type@));
    sql
}

/// The text that reports a failed addition of `column` to `table`.
pub fn add_column_failure(table: &str, column: &str, detail: &str) -> (message: String)
    ensures
        message@ == add_column_failure_text(table@, column@, detail@),
{
    let mut message = String::new();
    message.append("ALTER TABLE ");
    message.append(table);
    message.append(" ADD COLUMN ");
    message.append(column);
    message.append(" failed: ");
    message.append(detail);
    assert(message@ =~= add_column_failure_text(table@, column@, detail@));
    message
}

/// The texts of a list of strings.
pub open spec fn texts(list: Seq<String>) -> Seq<Seq<char>> {
    list.map_values(|s: String| s@)
}

/// Whether `e` is the fault of the first row whose second place does not
/// hold a text.
pub open spec fn name_fault(rows: Seq<Vec<SqlValue>>, e: Fault) -> bool {
    exists|k: int|
        0 <= k < rows.len() && #[trigger] text_of_name(row_data(rows[k]@)) is None && e
            == fault(row_data(rows[k]@), 1, "name"@) && forall|j: int|
            0 <= j < k ==> text_of_name(row_data((#[trigger] rows[j])@)) is Some
}

/// The name in a row of the column listing: the text in its second place.
pub open spec fn text_of_name(row: Seq<SqlData>) -> Option<Seq<char>> {
    if row.len() > 1 {
        text_of(row[1])
    } else {
        None
    }
}

/// Whether every row of a column listing has a text in its second place,
/// so that the names can be read.
pub open spec fn names_readable(rows: Seq<Vec<SqlValue>>) -> bool {
    forall|k: int| 0 <= k < rows.len() ==> text_of_name(row_data((#[trigger] rows[k])@)) is Some
}

/// The names that a column listing holds, in the order of its rows.
pub open spec fn names_of(rows: Seq<Vec<SqlValue>>) -> Seq<Seq<char>> {
    Seq::new(rows.len(), |k: int| text_of_name(row_data(rows[k]@))->0)
}

/// Reads the names of the columns from the rows of the column listing, in
/// the order of the rows. The first row without a text in its second place
/// stops the reading with its fault.
pub fn column_names_from_rows(rows: &Vec<Vec<SqlValue>>) -> (r: Result<Vec<String>, RowError>)
    ensures
        match r {
            Ok(names) => names_readable(rows@) && texts(names@) == names_of(rows@),
            Err(e) => !names_readable(rows@) && name_fault(rows@, e@),
        },
{
    let mut names: Vec<String> = Vec::new();
    let mut k: usize = 0;
    while k < rows.len()
        invariant
            k <= rows@.len(),
            names@.len() == k,
            forall|j: int|
                0 <= j < k ==> Some((#[trigger] names@[j])@) == text_of_name(
                    row_data(rows@[j]@),
                ),
        decreases rows@.len() - k,
    {
        match text_at(&rows[k], 1, "name") {
            Ok(name) => {
                names.push(name);
            },
            Err(e) => {
                assert(text_of_name(row_data(rows@[k as int]@)) is None);
                assert(!names_readable(rows@));
                assert forall|j: int| 0 <= j < k implies text_of_name(
                    row_data((#[trigger] rows@[j])@),
                ) is Some by {
                    assert(Some(names@[j]@) == text_of_name(row_data(rows@[j]@)));
                }
                return Err(e);
            },
        }
        k = k + 1;
    }
    proof {
        assert forall|j: int| 0 <= j < rows@.len() implies text_of_name(
            row_data((#[trigger] rows@[j])@),
        ) is Some by {
            assert(Some(names@[j]@) == text_of_name(row_data(rows@[j]@)));
        }
        assert forall|j: int| 0 <= j < rows@.len() implies texts(names@)[j] == names_of(
            rows@,
        )[j] by {
            assert(Some(names@[j]@) == text_of_name(row_data(rows@[j]@)));
        }
        assert(texts(names@) =~= names_of(rows@));
    }
    Ok(names)
}

/// Whether a table with the columns `columns` has the column `column`. Names
/// are compared as they are written.
pub fn column_present(columns: &Vec<String>, column: &str) -> (present: bool)
    ensures
        present == texts(columns@).contains(column@),
{
    let wanted = column.to_string();
    let mut i: usize = 0;
    while i < columns.len()
        invariant
            i <= columns@.len(),
            wanted@ == column@,
            forall|j: int| 0 <= j < i ==> (#[trigger] columns@[j])@ != column@,
        decreases columns@.len() - i,
    {
        if columns[i] == wanted {
            assert(texts(columns@)[i as int] == column@);
            return true;
        }
        i = i + 1;
    }
    assert forall|j: int| 0 <= j < texts(columns@).len() implies texts(columns@)[j]
        != column@ by {
        assert(texts(columns@)[j] == columns@[j]@);
    }
    false
}

/// The statement that adds a column, which binds nothing.
pub open spec fn add_column_of(
    table: Seq<char>,
    column: Seq<char>,
    sql_type: Seq<char>,
) -> StatementData {
    StatementData {
        sql: add_column_text(table, column, sql_type),
        values: Seq::<SqlData>::empty(),
    }
}

/// What the addition of a column comes to for a table with the columns
/// `columns`: nothing when the table has the column, and otherwise the
/// statement that adds it.
pub fn add_column_statement(columns: &Vec<String>, table: &str, column: &str, sql_type: &str) -> (r:
    Option<SqlStatement>)
    ensures
        r is None <==> texts(columns@).contains(column@),
        r matches Some(stmt) ==> stmt@ == add_column_of(table@, column@, sql_type@),
{
    if column_present(columns, column) {
        None
    } else {
        let stmt = SqlStatement {
            sql: add_column_sql(table, column, sql_type),
            params: Vec::new(),
        };
        assert(stmt@.values =~= Seq::<SqlData>::empty());
        Some(stmt)
    }
}

/// The request that lists the columns of `table`.
pub open spec fn list_columns_request(table: Seq<char>) -> Request {
    query_of(table_info_text(table), Seq::<SqlData>::empty())
}

/// The request that adds `column` of type `sql_type` to `table`.
pub open spec fn add_column_request(
    table: Seq<char>,
    column: Seq<char>,
    sql_type: Seq<char>,
) -> Request {
    Request::Change { statement: add_column_of(table, column, sql_type) }
}

/// The five batches of a reconciliation: foreign keys are switched on, then
/// the three tables and their indexes are created where they are absent.
pub open spec fn base_requests() -> Seq<Request> {
    seq![
        Request::Batch { sql: FOREIGN_KEYS_SQL@ },
        Request::Batch { sql: CREATE_INTERNS_SQL@ },
        Request::Batch { sql: INDEX_INTERNS_SQL@ },
        Request::Batch { sql: CREATE_ASSIGNMENTS_SQL@ },
        Request::Batch { sql: CREATE_EVALUATIONS_SQL@ },
    ]
}

/// The failure that a result reports: none for a success, and the text of
/// the error otherwise.
pub open spec fn failure<T>(r: Result<T, String>) -> Option<Seq<char>> {
    match r {
        Ok(_) => None,
        Err(message) => Some(message@),
    }
}

/// Whether `r` gives back what the store answered to a column listing: the
/// names of the listing where they can be read, the fault of the first row
/// that cannot be read, and the store's error as it is.
pub open spec fn listed(answer: Answer, r: Result<Vec<String>, String>) -> bool {
    match answer {
        Answer::Rows { rows } => if names_readable(rows) {
            r matches Ok(names) && texts(names@) == names_of(rows)
        } else {
            r matches Err(message) && exists|f: Fault|
                #[trigger] name_fault(rows, f) && message@ == fault_text(f)
        },
        Answer::Failed { text } => r matches Err(message) && message@ == text,
        _ => false,
    }
}

/// Whether the answer to a column listing calls for the addition of
/// `column`: the names can be read and `column` is not among them.
pub open spec fn calls_for(answer: Answer, column: Seq<char>) -> bool {
    answer matches Answer::Rows { rows } && names_readable(rows) && !names_of(rows).contains(
        column,
    )
}

/// What making sure of one column adds to the record, and how it ends.
///
/// The columns of the table are listed. A listing that fails, or that cannot
/// be read, ends the step with that failure. Where the listing has the
/// column the step is done. Otherwise, and only then, the addition of the
/// column is asked for; it ends the step, with the text of
/// [`add_column_failure_text`] where it fails.
pub open spec fn column_step(
    added: Seq<Exchange>,
    table: Seq<char>,
    column: Seq<char>,
    sql_type: Seq<char>,
    outcome: Option<Seq<char>>,
) -> bool {
    &&& added.len() >= 1
    &&& added[0].request == list_columns_request(table)
    &&& match added[0].answer {
        Answer::Failed { text } => added.len() == 1 && outcome == Some(text),
        Answer::Rows { rows } => {
            if !names_readable(rows) {
                &&& added.len() == 1
                &&& outcome is Some
                &&& exists|f: Fault|
                    #[trigger] name_fault(rows, f) && outcome == Some(fault_text(f))
            } else if names_of(rows).contains(column) {
                added.len() == 1 && outcome is None
            } else {
                &&& added.len() == 2
                &&& added[1].request == add_column_request(table, column, sql_type)
                &&& match added[1].answer {
                    Answer::Changed { .. } => outcome is None,
                    Answer::Failed { text } => outcome == Some(
                        add_column_failure_text(table, column, text),
                    ),
                    _ => false,
                }
            }
        },
        _ => false,
    }
}

/// How many exchanges making sure of `column` takes, given the answer to
/// its listing: two where the answer calls for the addition, and else one.
pub open spec fn column_exchanges(added: Seq<Exchange>, column: Seq<char>) -> int {
    if added.len() >= 1 && calls_for(added[0].answer, column) {
        2
    } else {
        1
    }
}

/// The request that asks whether the enforcement of foreign keys is on.
pub open spec fn foreign_keys_check_request() -> Request {
    query_of(FOREIGN_KEYS_CHECK_SQL@, Seq::<SqlData>::empty())
}

/// How the check of the foreign keys ends, given the store's answer: well
/// where the answer is one row with 1; with [`FOREIGN_KEYS_OFF_MESSAGE`]
/// for every other answer of rows; and with the store's error as it is.
pub open spec fn foreign_keys_checked(answer: Answer, outcome: Option<Seq<char>>) -> bool {
    match answer {
        Answer::Rows { rows } => if count_of(rows) == Some(1i64) {
            outcome is None
        } else {
            outcome == Some(FOREIGN_KEYS_OFF_MESSAGE@)
        },
        Answer::Failed { text } => outcome == Some(text),
        _ => false,
    }
}

/// The number of steps of a reconciliation: foreign keys are switched on
/// and checked, the four other batches follow, then the six attachment
/// columns.
pub open spec fn reconciliation_steps() -> int {
    (1 + base_requests().len() + required_columns().len()) as int
}

/// The place, among the [`base_requests`], of the batch of step `step`: the
/// first batch is step 0, and the others follow the check of step 1.
pub open spec fn batch_of(step: int) -> int {
    if step == 0 {
        0
    } else {
        step - 1
    }
}

/// What a reconciliation adds to the record from its step `step` on, and
/// how it ends.
///
/// Step 0 asks to switch foreign keys on, and step 1 asks whether they are
/// on and fails unless the store says so, as [`foreign_keys_checked`] says.
/// Steps 2 to 5 ask for the other batches of [`base_requests`], in their
/// order. Each of the six steps after them makes sure of its attachment
/// column of the persons' table, as [`column_step`] says. A step that fails
/// is the last one, and its failure is the failure of the reconciliation.
/// The reconciliation succeeds when every step did.
pub open spec fn reconciled_from(
    added: Seq<Exchange>,
    step: int,
    outcome: Option<Seq<char>>,
) -> bool
    decreases reconciliation_steps() - step,
{
    if step < 0 {
        false
    } else if step >= reconciliation_steps() {
        added.len() == 0 && outcome is None
    } else if step == 1 {
        &&& added.len() >= 1
        &&& added[0].request == foreign_keys_check_request()
        &&& if foreign_keys_checked(added[0].answer, None) {
            reconciled_from(added.skip(1), step + 1, outcome)
        } else {
            added.len() == 1 && outcome is Some && foreign_keys_checked(added[0].answer, outcome)
        }
    } else if step <= base_requests().len() {
        &&& added.len() >= 1
        &&& added[0].request == base_requests()[batch_of(step)]
        &&& match added[0].answer {
            Answer::Done => reconciled_from(added.skip(1), step + 1, outcome),
            Answer::Failed { text } => added.len() == 1 && outcome == Some(text),
            _ => false,
        }
    } else {
        let column = required_columns()[step - 1 - base_requests().len()];
        let n = column_exchanges(added, column.0);
        &&& added.len() >= n
        &&& if column_step(added.take(n), INTERNS_TABLE@, column.0, column.1, None) {
            reconciled_from(added.skip(n), step + 1, outcome)
        } else {
            added.len() == n && outcome is Some && column_step(
                added,
                INTERNS_TABLE@,
                column.0,
                column.1,
                outcome,
            )
        }
    }
}

/// What a whole reconciliation adds to the record, and how it ends.
pub open spec fn reconciliation(added: Seq<Exchange>, outcome: Option<Seq<char>>) -> bool {
    reconciled_from(added, 0, outcome)
}

/// Whether a request is one of those that reconciliation makes: one of the
/// five batches of [`base_requests`], the check of the foreign keys, the
/// listing of the columns of the persons' table, or the addition of one of
/// the six attachment columns to it. None of them drops or renames anything.
pub open spec fn is_reconciling(request: Request) -> bool {
    ||| base_requests().contains(request)
    ||| request == foreign_keys_check_request()
    ||| request == list_columns_request(INTERNS_TABLE@)
    ||| exists|i: int|
        0 <= i < required_columns().len() && request == #[trigger] add_column_request(
            INTERNS_TABLE@,
            required_columns()[i].0,
            required_columns()[i].1,
        )
}

/// Whatever a reconciliation asks of the store is a request of
/// reconciliation: a creation where absent, a listing of columns, or the
/// addition of an attachment column. It never asks to drop or to rename.
pub proof fn reconciliation_only_adds(
    added: Seq<Exchange>,
    step: int,
    outcome: Option<Seq<char>>,
)
    requires
        reconciled_from(added, step, outcome),
    ensures
        forall|i: int| 0 <= i < added.len() ==> is_reconciling((#[trigger] added[i]).request),
    decreases reconciliation_steps() - step,
{
    if step < 0 || step >= reconciliation_steps() {
    } else if step <= base_requests().len() {
        let goes_on = if step == 1 {
            foreign_keys_checked(added[0].answer, None)
        } else {
            assert(base_requests().contains(base_requests()[batch_of(step)]));
            added[0].answer is Done
        };
        if goes_on {
            reconciliation_only_adds(added.skip(1), step + 1, outcome);
            assert forall|i: int| 0 <= i < added.len() implies is_reconciling(
                (#[trigger] added[i]).request,
            ) by {
                if i > 0 {
                    assert(added[i] == added.skip(1)[i - 1]);
                }
            }
        }
    } else {
        let at = step - 1 - base_requests().len();
        let column = required_columns()[at];
        let n = column_exchanges(added, column.0);
        let first = added.take(n);
        let add = add_column_request(INTERNS_TABLE@, column.0, column.1);
        assert(add == add_column_request(
            INTERNS_TABLE@,
            required_columns()[at].0,
            required_columns()[at].1,
        ));
        assert(is_reconciling(add));
        if column_step(first, INTERNS_TABLE@, column.0, column.1, None) {
            reconciliation_only_adds(added.skip(n), step + 1, outcome);
            assert forall|i: int| 0 <= i < added.len() implies is_reconciling(
                (#[trigger] added[i]).request,
            ) by {
                if i < n {
                    assert(added[i] == first[i]);
                } else {
                    assert(added[i] == added.skip(n)[i - n]);
                }
            }
        }
    }
}

/// Whether an answer, where it is a column listing that can be read, has
/// every one of the six attachment columns.
pub open spec fn is_settled(answer: Answer) -> bool {
    answer matches Answer::Rows { rows } ==> (names_readable(rows) ==> forall|k: int|
        0 <= k < required_columns().len() ==> names_of(rows).contains(
            (#[trigger] required_columns()[k]).0,
        ))
}

/// A reconciliation of a table that has the six attachment columns changes
/// nothing: where every listing that the store answers with has them, the
/// store is asked for no addition. So a table that was reconciled once is
/// left as it is by every further reconciliation.
pub proof fn reconciliation_of_a_settled_table_changes_nothing(
    added: Seq<Exchange>,
    step: int,
    outcome: Option<Seq<char>>,
)
    requires
        reconciled_from(added, step, outcome),
        forall|i: int| 0 <= i < added.len() ==> is_settled((#[trigger] added[i]).answer),
    ensures
        forall|i: int| 0 <= i < added.len() ==> !((#[trigger] added[i]).request is Change),
    decreases reconciliation_steps() - step,
{
    if 0 <= step < reconciliation_steps() {
        let goes_on = if step == 1 {
            foreign_keys_checked(added[0].answer, None)
        } else if step <= base_requests().len() {
            added[0].answer is Done
        } else {
            let column = required_columns()[step - 1 - base_requests().len()];
            assert(is_settled(added[0].answer));
            assert(!calls_for(added[0].answer, column.0));
            column_step(added.take(1), INTERNS_TABLE@, column.0, column.1, None)
        };
        if goes_on {
            let rest = added.skip(1);
            assert forall|i: int| 0 <= i < rest.len() implies is_settled(
                (#[trigger] rest[i]).answer,
            ) by {
                assert(rest[i] == added[i + 1]);
            }
            reconciliation_of_a_settled_table_changes_nothing(rest, step + 1, outcome);
            assert forall|i: int| 0 <= i < added.len() implies !((#[trigger] added[i]).request
                is Change) by {
                if i > 0 {
                    assert(added[i] == rest[i - 1]);
                }
            }
        }
    }
}

/// Lists the names of the columns of `table`, as the store has them now: the
/// store is asked the one listing, and the result is what [`listed`] says of
/// its answer.
pub fn table_columns(store: &mut Store, table: &str) -> (r: Result<Vec<String>, String>)
    ensures
        asked(final(store).exchanges(), old(store).exchanges(), list_columns_request(table@)),
        listed(final(store).exchanges().last().answer, r),
{
    let sql = table_info_sql(table);
    let params: Vec<SqlParam> = Vec::new();
    assert(params_data(params@) =~= Seq::<SqlData>::empty());
    let ghost before = store.exchanges();
    let answer = store.query_rows(sql.as_str(), &params);
    assert(store.exchanges().drop_last() =~= before);
    let rows = match answer {
        Ok(rows) => rows,
        Err(message) => {
            return Err(message);
        },
    };
    match column_names_from_rows(&rows) {
        Ok(names) => Ok(names),
        Err(e) => {
            let message = e.message();
            assert(name_fault(rows@, e@) && message@ == fault_text(e@));
            Err(message)
        },
    }
}

/// Adds `column` to `table` unless the table has it: the columns are listed,
/// [`add_column_statement`] decides, and the statement it gives is run. What
/// is asked of the store, when the addition is made and how the step ends is
/// what [`column_step`] says.
pub fn add_column_if_missing(store: &mut Store, table: &str, column: &str, sql_type: &str) -> (r:
    Result<(), String>)
    ensures
        extends(final(store).exchanges(), old(store).exchanges()),
        column_step(
            final(store).exchanges().skip(old(store).exchanges().len() as int),
            table@,
            column@,
            sql_type@,
            failure(r),
        ),
{
    let ghost before = store.exchanges();
    let listing = table_columns(store, table);
    let ghost listed_at = store.exchanges();
    proof {
        assert(listed_at.subrange(0, before.len() as int) =~= before);
        assert(listed_at.skip(before.len() as int) =~= seq![listed_at.last()]);
    }
    let columns = match listing {
        Ok(columns) => columns,
        Err(message) => {
            return Err(message);
        },
    };
    match add_column_statement(&columns, table, column, sql_type) {
        None => Ok(()),
        Some(stmt) => {
            let r = match store.run(&stmt) {
                Ok(_) => Ok(()),
                Err(detail) => Err(add_column_failure(table, column, detail.as_str())),
            };
            proof {
                let after = store.exchanges();
                assert(after.subrange(0, before.len() as int) =~= before);
                assert(after.skip(before.len() as int) =~= seq![listed_at.last(), after.last()]);
            }
            r
        },
    }
}

/// How the check of the foreign keys ends, given the store's answer: well
/// where the answer is one row with 1, with [`FOREIGN_KEYS_OFF_MESSAGE`] for
/// every other answer of rows, and with the store's error as it is.
pub fn foreign_keys_outcome(answer: &Result<Vec<Vec<SqlValue>>, String>) -> (r: Result<(), String>)
    ensures
        foreign_keys_checked(rows_answer(*answer), failure(r)),
{
    match answer {
        Ok(rows) => match count_from_rows(rows) {
            Ok(1) => Ok(()),
            _ => Err(FOREIGN_KEYS_OFF_MESSAGE.to_string()),
        },
        Err(message) => Err(message.clone()),
    }
}

/// Asks the store whether the enforcement of foreign keys is on, and fails
/// unless it says so.
pub fn check_foreign_keys(store: &mut Store) -> (r: Result<(), String>)
    ensures
        asked(final(store).exchanges(), old(store).exchanges(), foreign_keys_check_request()),
        foreign_keys_checked(final(store).exchanges().last().answer, failure(r)),
{
    let params: Vec<SqlParam> = Vec::new();
    assert(params_data(params@) =~= Seq::<SqlData>::empty());
    let ghost before = store.exchanges();
    let answer = store.query_rows(FOREIGN_KEYS_CHECK_SQL, &params);
    assert(store.exchanges().drop_last() =~= before);
    foreign_keys_outcome(&answer)
}

/// The batch at place `index` of [`base_requests`].
fn base_sql(index: usize) -> (sql: &'static str)
    requires
        index < base_requests().len(),
    ensures
        base_requests()[index as int] == (Request::Batch { sql: sql@ }),
{
    if index == 0 {
        FOREIGN_KEYS_SQL
    } else if index == 1 {
        CREATE_INTERNS_SQL
    } else if index == 2 {
        INDEX_INTERNS_SQL
    } else if index == 3 {
        CREATE_ASSIGNMENTS_SQL
    } else {
        CREATE_EVALUATIONS_SQL
    }
}

proof fn lemma_extends_twice(first: Seq<Exchange>, second: Seq<Exchange>, third: Seq<Exchange>)
    requires
        extends(second, first),
        extends(third, second),
    ensures
        extends(third, first),
        third.skip(first.len() as int) == second.skip(first.len() as int) + third.skip(
            second.len() as int,
        ),
{
    assert(third.subrange(0, first.len() as int) =~= second.subrange(0, first.len() as int));
    assert forall|i: int| 0 <= i < second.len() implies third[i] == second[i] by {
        assert(third.subrange(0, second.len() as int)[i] == second[i]);
    }
    assert(third.skip(first.len() as int) =~= second.skip(first.len() as int) + third.skip(
        second.len() as int,
    ));
}

/// Carries out a reconciliation from its step `step` on.
fn reconcile_from(store: &mut Store, step: usize) -> (r: Result<(), String>)
    requires
        step <= reconciliation_steps(),
    ensures
        extends(final(store).exchanges(), old(store).exchanges()),
        reconciled_from(
            final(store).exchanges().skip(old(store).exchanges().len() as int),
            step as int,
            failure(r),
        ),
    decreases reconciliation_steps() - step,
{
    let ghost before = store.exchanges();
    proof {
        assert(before.subrange(0, before.len() as int) =~= before);
    }
    if step >= 12 {
        return Ok(());
    }
    if step == 1 {
        let done = check_foreign_keys(store);
        proof {
            let now = store.exchanges();
            assert(now.subrange(0, before.len() as int) =~= before);
            assert(now.skip(before.len() as int) =~= seq![now.last()]);
        }
        if let Err(message) = done {
            return Err(message);
        }
    } else if step < 6 {
        let index: usize = if step == 0 {
            0
        } else {
            step - 1
        };
        let done = store.run_batch(base_sql(index));
        proof {
            let now = store.exchanges();
            assert(now.subrange(0, before.len() as int) =~= before);
            assert(now.skip(before.len() as int) =~= seq![now.last()]);
        }
        if let Err(message) = done {
            return Err(message);
        }
    } else {
        let columns = attachment_columns();
        let column = &columns[step - 6];
        proof {
            assert(column_defs(columns@)[step - 6] == (column.name@, column.sql_type@));
        }
        let done = add_column_if_missing(store, INTERNS_TABLE, column.name, column.sql_type);
        if let Err(message) = done {
            proof {
                let added = store.exchanges().skip(before.len() as int);
                assert(added.take(added.len() as int) =~= added);
            }
            return Err(message);
        }
    }
    let ghost stepped = store.exchanges();
    let r = reconcile_from(store, step + 1);
    proof {
        let last = store.exchanges();
        lemma_extends_twice(before, stepped, last);
        let one = stepped.skip(before.len() as int);
        let rest = last.skip(stepped.len() as int);
        let added = last.skip(before.len() as int);
        assert(added == one + rest);
        assert(added.take(one.len() as int) =~= one);
        assert(added.skip(one.len() as int) =~= rest);
        assert(added[0] == one[0]);
    }
    r
}

/// Reconciles the schema of an open database: foreign keys are switched on
/// and the store is asked whether they are, the three tables and their
/// indexes are created where they are absent, and each attachment column is
/// added to the persons' table unless it is there. The first request that
/// fails stops the reconciliation and is its error: a store that cannot
/// switch foreign keys on, or does not say that they are on, is asked for
/// nothing more.
/// What is asked of the store and how the reconciliation ends is what
/// [`reconciliation`] says.
pub fn ensure_schema(store: &mut Store) -> (r: Result<(), String>)
    ensures
        extends(final(store).exchanges(), old(store).exchanges()),
        reconciliation(
            final(store).exchanges().skip(old(store).exchanges().len() as int),
            failure(r),
        ),
{
    reconcile_from(store, 0)
}

/// Opens the database at `path`, creating it where it does not exist, and
/// reconciles its schema. The error of the store comes back as its text. The
/// store of a database that was opened went through one reconciliation,
/// which succeeded, and through nothing else.
pub fn open_conn(path: &str) -> (r: Result<Store, String>)
    ensures
        r matches Ok(store) ==> reconciliation(store.exchanges(), None),
{
    let mut store = match Store::open(path) {
        Ok(store) => store,
        Err(message) => {
            return Err(message);
        },
    };
    let r = ensure_schema(&mut store);
    assert(store.exchanges().skip(0) =~= store.exchanges());
    match r {
        Ok(()) => Ok(store),
        Err(message) => Err(message),
    }
}

/// The columns of a table after one column was made sure of: the same
/// columns when the table had it, and otherwise the same columns followed by
/// the new one. This is what [`column_step`] comes to, taking the store to
/// add the column that a successful addition names.
pub open spec fn with_column(columns: Seq<Seq<char>>, name: Seq<char>) -> Seq<Seq<char>> {
    if columns.contains(name) {
        columns
    } else {
        columns.push(name)
    }
}

/// The columns of the persons' table after the first `n` attachment columns
/// were made sure of, one after the other.
pub open spec fn reconciled_upto(columns: Seq<Seq<char>>, n: int) -> Seq<Seq<char>>
    decreases n,
{
    if n <= 0 {
        columns
    } else {
        with_column(reconciled_upto(columns, n - 1), required_columns()[n - 1].0)
    }
}

/// The columns of the persons' table after one reconciliation.
pub open spec fn reconciled(columns: Seq<Seq<char>>) -> Seq<Seq<char>> {
    reconciled_upto(columns, required_columns().len() as int)
}

/// The columns of the persons' table after `times` reconciliations.
pub open spec fn reconciled_times(columns: Seq<Seq<char>>, times: nat) -> Seq<Seq<char>>
    decreases times,
{
    if times == 0 {
        columns
    } else {
        reconciled(reconciled_times(columns, (times - 1) as nat))
    }
}

proof fn lemma_reconciled_upto_grows(columns: Seq<Seq<char>>, n: int)
    requires
        0 <= n <= required_columns().len(),
    ensures
        columns.len() <= reconciled_upto(columns, n).len(),
        reconciled_upto(columns, n).subrange(0, columns.len() as int) == columns,
        forall|i: int|
            0 <= i < n ==> reconciled_upto(columns, n).contains(
                (#[trigger] required_columns()[i]).0,
            ),
    decreases n,
{
    if n <= 0 {
        assert(columns.subrange(0, columns.len() as int) =~= columns);
    } else {
        lemma_reconciled_upto_grows(columns, n - 1);
        let before = reconciled_upto(columns, n - 1);
        let name = required_columns()[n - 1].0;
        let after = reconciled_upto(columns, n);
        assert(after == with_column(before, name));
        assert(after.subrange(0, columns.len() as int) =~= before.subrange(
            0,
            columns.len() as int,
        ));
        assert forall|i: int| 0 <= i < n implies after.contains(
            (#[trigger] required_columns()[i]).0,
        ) by {
            if i < n - 1 {
                let wanted = required_columns()[i].0;
                assert(before.contains(wanted));
                let at = choose|at: int| 0 <= at < before.len() && before[at] == wanted;
                assert(after[at] == wanted);
            } else if before.contains(name) {
            } else {
                assert(after[before.len() as int] == name);
            }
        }
    }
}

proof fn lemma_reconciled_upto_settled(columns: Seq<Seq<char>>, n: int)
    requires
        0 <= n <= required_columns().len(),
        forall|i: int|
            0 <= i < required_columns().len() ==> columns.contains(
                (#[trigger] required_columns()[i]).0,
            ),
    ensures
        reconciled_upto(columns, n) == columns,
    decreases n,
{
    if n > 0 {
        lemma_reconciled_upto_settled(columns, n - 1);
        assert(columns.contains(required_columns()[n - 1].0));
    }
}

/// Reconciliation loses nothing: every column that the table had stands
/// where it stood, the new columns follow the old ones, and afterwards the
/// table has each of the six attachment columns.
pub proof fn reconcile_keeps_every_column(columns: Seq<Seq<char>>)
    ensures
        columns.len() <= reconciled(columns).len(),
        forall|i: int| 0 <= i < columns.len() ==> reconciled(columns)[i] == #[trigger] columns[i],
        forall|i: int|
            0 <= i < required_columns().len() ==> reconciled(columns).contains(
                (#[trigger] required_columns()[i]).0,
            ),
{
    lemma_reconciled_upto_grows(columns, required_columns().len() as int);
    assert forall|i: int| 0 <= i < columns.len() implies reconciled(columns)[i]
        == #[trigger] columns[i] by {
        assert(reconciled(columns).subrange(0, columns.len() as int)[i] == columns[i]);
    }
}

/// Reconciliation is idempotent: a table that was reconciled once has the
/// same columns after any number of further reconciliations.
pub proof fn reconcile_is_idempotent(columns: Seq<Seq<char>>, times: nat)
    requires
        times >= 1,
    ensures
        reconciled_times(columns, times) == reconciled(columns),
    decreases times,
{
    if times == 1 {
        assert(reconciled_times(columns, 0) == columns);
    } else {
        reconcile_is_idempotent(columns, (times - 1) as nat);
        reconcile_keeps_every_column(columns);
        lemma_reconciled_upto_settled(reconciled(columns), required_columns().len() as int);
    }
}

} // verus!
