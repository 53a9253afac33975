//! The statements that create, list and delete evaluations, the range their
//! scores must lie in, and the reading of their rows.

use vstd::prelude::*;
use crate::model::Evaluation;
use crate::rows::{
    check_row, fits, integer_in, integer_of, optional_integer_in, optional_text_in,
    row_fault, rows_fault, shape_of, text_in, text_of, text_view, Expect, Field, FieldDef,
    RowError,
};
use crate::statements::{
    delete_of, insert_of, render_delete, render_insert, write_pairs, ColumnWrite, SqlStatement,
    StatementData, Write,
};
use crate::value::{row_data, text_param, SqlData, SqlParam, SqlValue};

verus! {

/// The table that holds the evaluations.
pub const EVALUATIONS_TABLE: &'static str = "evaluations";

/// Lists the evaluations of the person bound to `?1`, the newest first.
pub const LIST_EVALUATIONS_SQL: &'static str =
    "SELECT id, intern_id, label, score, created_at FROM evaluations WHERE intern_id = ?1 ORDER BY created_at DESC, id DESC";

/// The lowest score an evaluation may carry.
pub const MIN_SCORE: i64 = 0;

/// The highest score an evaluation may carry.
pub const MAX_SCORE: i64 = 100;

/// What a refused score is reported with: the constraint it violates.
pub const SCORE_CONSTRAINT_MESSAGE: &'static str =
    "CHECK constraint failed: score BETWEEN 0 AND 100";

/// Whether a score lies in the range that the store accepts.
pub open spec fn score_in_range(score: int) -> bool {
    MIN_SCORE <= score <= MAX_SCORE
}

/// Why an evaluation is refused before it reaches the store.
#[derive(Clone, Copy, Debug, PartialEq, Eq)]
pub enum EvaluationError {
    /// The score lies outside the range from [`MIN_SCORE`] to [`MAX_SCORE`].
    ScoreOutOfRange { score: i64 },
}

impl EvaluationError {
    /// The text that reports the refusal.
    pub fn message(&self) -> (s: String)
        ensures
            s@ == SCORE_CONSTRAINT_MESSAGE@,
    {
        SCORE_CONSTRAINT_MESSAGE.to_string()
    }
}

/// Decides whether a score lies in the accepted range.
pub fn score_is_valid(score: i64) -> (ok: bool)
    ensures
        ok == score_in_range(score as int),
{
    MIN_SCORE <= score && score <= MAX_SCORE
}

/// What the creation of an evaluation writes. The identity and the creation
/// time are left to the store.
pub open spec fn evaluation_writes(e: Evaluation) -> Seq<Write> {
    seq![
        ("intern_id"@, SqlData::Integer(e.intern_id)),
        ("label"@, SqlData::Text(e.label@)),
        ("score"@, SqlData::Integer(e.score)),
    ]
}

/// The statement that creates an evaluation: one insertion into the
/// evaluations' table of what [`evaluation_writes`] lists.
pub open spec fn insert_evaluation_of(e: Evaluation) -> StatementData {
    insert_of(EVALUATIONS_TABLE@, evaluation_writes(e))
}

/// The statement that deletes the evaluation with identity `id`.
pub open spec fn delete_evaluation_of(id: i64) -> StatementData {
    delete_of(EVALUATIONS_TABLE@, id)
}

/// Makes the statement that creates an evaluation. An evaluation whose score
/// lies from 0 to 100 gives its insertion; every other score is refused, and
/// no statement is made.
pub fn insert_evaluation_statement(e: &Evaluation) -> (r: Result<SqlStatement, EvaluationError>)
    ensures
        match r {
            Ok(stmt) => score_in_range(e.score as int) && stmt@ == insert_evaluation_of(*e),
            Err(refusal) => !score_in_range(e.score as int) && refusal
                == (EvaluationError::ScoreOutOfRange { score: e.score }),
        },
{
    if !score_is_valid(e.score) {
        return Err(EvaluationError::ScoreOutOfRange { score: e.score });
    }
    let mut writes: Vec<ColumnWrite> = Vec::new();
    writes.push(ColumnWrite { column: "intern_id", value: SqlParam::Integer(e.intern_id) });
    writes.push(ColumnWrite { column: "label", value: text_param(&e.label) });
    writes.push(ColumnWrite { column: "score", value: SqlParam::Integer(e.score) });
    proof {
        assert(write_pairs(writes@) =~= evaluation_writes(*e));
    }
    Ok(render_insert(EVALUATIONS_TABLE, &writes))
}

/// Makes the statement that deletes the evaluation with identity `id`.
pub fn delete_evaluation_statement(id: i64) -> (stmt: SqlStatement)
    ensures
        stmt@ == delete_evaluation_of(id),
{
    render_delete(EVALUATIONS_TABLE, id)
}

/// The columns of a listed evaluation and what each field accepts.
pub open spec fn evaluation_shape() -> Seq<Field> {
    seq![
        ("id"@, Expect::OptionalInteger),
        ("intern_id"@, Expect::Integer),
        ("label"@, Expect::Text),
        ("score"@, Expect::Integer),
        ("created_at"@, Expect::OptionalText),
    ]
}

/// Whether each field of `e` holds what the column of its position holds.
pub open spec fn evaluation_reads(e: Evaluation, row: Seq<SqlData>) -> bool {
    &&& e.id == integer_of(row[0])
    &&& Some(e.intern_id) == integer_of(row[1])
    &&& Some(e.label@) == text_of(row[2])
    &&& Some(e.score) == integer_of(row[3])
    &&& text_view(e.created_at) == text_of(row[4])
}

/// The fields of one evaluation, in the order of the columns.
pub fn evaluation_fields() -> (fields: Vec<FieldDef>)
    ensures
        shape_of(fields@) == evaluation_shape(),
{
    let mut fields: Vec<FieldDef> = Vec::new();
    fields.push(FieldDef { column: "id", expect: Expect::OptionalInteger });
    fields.push(FieldDef { column: "intern_id", expect: Expect::Integer });
    fields.push(FieldDef { column: "label", expect: Expect::Text });
    fields.push(FieldDef { column: "score", expect: Expect::Integer });
    fields.push(FieldDef { column: "created_at", expect: Expect::OptionalText });
    assert(shape_of(fields@) =~= evaluation_shape());
    fields
}

/// Reads one evaluation from a row of the list query. The row is taken when
/// every column holds what its field accepts; otherwise the fault of the
/// first column that does not is reported.
pub fn evaluation_from_row(row: &Vec<SqlValue>) -> (r: Result<Evaluation, RowError>)
    ensures
        match r {
            Ok(x) => fits(row_data(row@), evaluation_shape()) && evaluation_reads(
                x,
                row_data(row@),
            ),
            Err(e) => row_fault(row_data(row@), evaluation_shape(), e@),
        },
{
    let fields = evaluation_fields();
    if let Err(e) = check_row(row, &fields) {
        return Err(e);
    }
    Ok(
        Evaluation {
            id: optional_integer_in(row, 0),
            intern_id: integer_in(row, 1),
            label: text_in(row, 2),
            score: integer_in(row, 3),
            created_at: optional_text_in(row, 4),
        },
    )
}

/// Reads the evaluations from the rows of the list query, one for each row
/// and in the order of the rows. The first row that does not fit stops the
/// reading with its fault.
pub fn evaluations_from_rows(rows: &Vec<Vec<SqlValue>>) -> (r: Result<Vec<Evaluation>, RowError>)
    ensures
        match r {
            Ok(list) => {
                &&& list@.len() == rows@.len()
                &&& forall|k: int|
                    0 <= k < rows@.len() ==> fits(
                        row_data((#[trigger] rows@[k])@),
                        evaluation_shape(),
                    ) && evaluation_reads(list@[k], row_data(rows@[k]@))
            },
            Err(e) => rows_fault(rows@, evaluation_shape(), e@),
        },
{
    let mut list: Vec<Evaluation> = Vec::new();
    let mut k: usize = 0;
    while k < rows.len()
        invariant
            k <= rows@.len(),
            list@.len() == k,
            forall|j: int|
                0 <= j < k ==> fits(row_data((#[trigger] rows@[j])@), evaluation_shape())
                    && evaluation_reads(list@[j], row_data(rows@[j]@)),
        decreases rows@.len() - k,
    {
        match evaluation_from_row(&rows[k]) {
            Ok(e) => {
                list.push(e);
            },
            Err(e) => {
                assert(row_fault(row_data(rows@[k as int]@), evaluation_shape(), e@));
                return Err(e);
            },
        }
        k = k + 1;
    }
    Ok(list)
}

} // verus!
