//! The statements that create, list and delete assignments, and the reading
//! of their rows.

use vstd::prelude::*;
use crate::model::Assignment;
use crate::rows::{
    check_row, fits, integer_in, integer_of, optional_integer_in, optional_text_in,
    row_fault, rows_fault, shape_of, text_in, text_of, text_view, Expect, Field, FieldDef,
    RowError,
};
use crate::statements::{
    delete_of, insert_of, render_delete, render_insert, write_pairs, ColumnWrite, SqlStatement,
    StatementData, Write,
};
use crate::value::{
    optional_text_param, row_data, text_or_null, text_param, SqlData, SqlParam, SqlValue,
};

verus! {

/// The table that holds the assignments.
pub const ASSIGNMENTS_TABLE: &'static str = "assignments";

/// Lists every assignment, the earliest due date first and, among equal due
/// dates, the newest assignment first.
pub const LIST_ASSIGNMENTS_SQL: &'static str =
    "SELECT id, intern_id, project_type, task_description, due_date, status, file_path, created_at FROM assignments ORDER BY due_date ASC, id DESC";

/// What the creation of an assignment writes. The identity and the creation
/// time are left to the store.
pub open spec fn assignment_writes(a: Assignment) -> Seq<Write> {
    seq![
        ("intern_id"@, SqlData::Integer(a.intern_id)),
        ("project_type"@, SqlData::Text(a.project_type@)),
        ("task_description"@, SqlData::Text(a.task_description@)),
        ("due_date"@, SqlData::Text(a.due_date@)),
        ("status"@, SqlData::Text(a.status@)),
        ("file_path"@, text_or_null(a.file_path)),
    ]
}

/// The statement that creates an assignment: one insertion into the
/// assignments' table of what [`assignment_writes`] lists.
pub open spec fn insert_assignment_of(a: Assignment) -> StatementData {
    insert_of(ASSIGNMENTS_TABLE@, assignment_writes(a))
}

/// The statement that deletes the assignment with identity `id`.
pub open spec fn delete_assignment_of(id: i64) -> StatementData {
    delete_of(ASSIGNMENTS_TABLE@, id)
}

/// Makes the statement that creates an assignment.
pub fn insert_assignment_statement(a: &Assignment) -> (stmt: SqlStatement)
    ensures
        stmt@ == insert_assignment_of(*a),
{
    let mut writes: Vec<ColumnWrite> = Vec::new();
    writes.push(ColumnWrite { column: "intern_id", value: SqlParam::Integer(a.intern_id) });
    writes.push(ColumnWrite { column: "project_type", value: text_param(&a.project_type) });
    writes.push(
        ColumnWrite { column: "task_description", value: text_param(&a.task_description) },
    );
    writes.push(ColumnWrite { column: "due_date", value: text_param(&a.due_date) });
    writes.push(ColumnWrite { column: "status", value: text_param(&a.status) });
    writes.push(ColumnWrite { column: "file_path", value: optional_text_param(&a.file_path) });
    proof {
        assert(write_pairs(writes@) =~= assignment_writes(*a));
    }
    render_insert(ASSIGNMENTS_TABLE, &writes)
}

/// Makes the statement that deletes the assignment with identity `id`.
pub fn delete_assignment_statement(id: i64) -> (stmt: SqlStatement)
    ensures
        stmt@ == delete_assignment_of(id),
{
    render_delete(ASSIGNMENTS_TABLE, id)
}

/// The columns of a listed assignment and what each field accepts.
pub open spec fn assignment_shape() -> Seq<Field> {
    seq![
        ("id"@, Expect::OptionalInteger),
        ("intern_id"@, Expect::Integer),
        ("project_type"@, Expect::Text),
        ("task_description"@, Expect::Text),
        ("due_date"@, Expect::Text),
        ("status"@, Expect::Text),
        ("file_path"@, Expect::OptionalText),
        ("created_at"@, Expect::OptionalText),
    ]
}

/// Whether each field of `a` holds what the column of its position holds.
pub open spec fn assignment_reads(a: Assignment, row: Seq<SqlData>) -> bool {
    &&& a.id == integer_of(row[0])
    &&& Some(a.intern_id) == integer_of(row[1])
    &&& Some(a.project_type@) == text_of(row[2])
    &&& Some(a.task_description@) == text_of(row[3])
    &&& Some(a.due_date@) == text_of(row[4])
    &&& Some(a.status@) == text_of(row[5])
    &&& text_view(a.file_path) == text_of(row[6])
    &&& text_view(a.created_at) == text_of(row[7])
}

/// The fields of one assignment, in the order of the columns.
pub fn assignment_fields() -> (fields: Vec<FieldDef>)
    ensures
        shape_of(fields@) == assignment_shape(),
{
    let mut fields: Vec<FieldDef> = Vec::new();
    fields.push(FieldDef { column: "id", expect: Expect::OptionalInteger });
    fields.push(FieldDef { column: "intern_id", expect: Expect::Integer });
    fields.push(FieldDef { column: "project_type", expect: Expect::Text });
    fields.push(FieldDef { column: "task_description", expect: Expect::Text });
    fields.push(FieldDef { column: "due_date", expect: Expect::Text });
    fields.push(FieldDef { column: "status", expect: Expect::Text });
    fields.push(FieldDef { column: "file_path", expect: Expect::OptionalText });
    fields.push(FieldDef { column: "created_at", expect: Expect::OptionalText });
    assert(shape_of(fields@) =~= assignment_shape());
    fields
}

/// Reads one assignment from a row of the list query. The row is taken when
/// every column holds what its field accepts; otherwise the fault of the
/// first column that does not is reported.
pub fn assignment_from_row(row: &Vec<SqlValue>) -> (r: Result<Assignment, RowError>)
    ensures
        match r {
            Ok(a) => fits(row_data(row@), assignment_shape()) && assignment_reads(
                a,
                row_data(row@),
            ),
            Err(e) => row_fault(row_data(row@), assignment_shape(), e@),
        },
{
    let fields = assignment_fields();
    if let Err(e) = check_row(row, &fields) {
        return Err(e);
    }
    Ok(
        Assignment {
            id: optional_integer_in(row, 0),
            intern_id: integer_in(row, 1),
            project_type: text_in(row, 2),
            task_description: text_in(row, 3),
            due_date: text_in(row, 4),
            status: text_in(row, 5),
            file_path: optional_text_in(row, 6),
            created_at: optional_text_in(row, 7),
        },
    )
}

/// Reads the assignments from the rows of the list query, one for each row
/// and in the order of the rows. The first row that does not fit stops the
/// reading with its fault.
pub fn assignments_from_rows(rows: &Vec<Vec<SqlValue>>) -> (r: Result<Vec<Assignment>, RowError>)
    ensures
        match r {
            Ok(list) => {
                &&& list@.len() == rows@.len()
                &&& forall|k: int|
                    0 <= k < rows@.len() ==> fits(
                        row_data((#[trigger] rows@[k])@),
                        assignment_shape(),
                    ) && assignment_reads(list@[k], row_data(rows@[k]@))
            },
            Err(e) => rows_fault(rows@, assignment_shape(), e@),
        },
{
    let mut list: Vec<Assignment> = Vec::new();
    let mut k: usize = 0;
    while k < rows.len()
        invariant
            k <= rows@.len(),
            list@.len() == k,
            forall|j: int|
                0 <= j < k ==> fits(row_data((#[trigger] rows@[j])@), assignment_shape())
                    && assignment_reads(list@[j], row_data(rows@[j]@)),
        decreases rows@.len() - k,
    {
        match assignment_from_row(&rows[k]) {
            Ok(a) => {
                list.push(a);
            },
            Err(e) => {
                assert(row_fault(row_data(rows@[k as int]@), assignment_shape(), e@));
                return Err(e);
            },
        }
        k = k + 1;
    }
    Ok(list)
}

} // verus!
