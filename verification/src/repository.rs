//! The record repository: each operation makes its statement, hands it to
//! the store, and gives back what the store answered.
//!
//! What the store holds is its own affair. An operation states what it asks
//! of the store, and what its result is for every answer the store may give:
//! the rows of a query read field by field, the store's error as it is.

use vstd::prelude::*;
use crate::assignments::{
    assignment_reads, assignment_shape, assignments_from_rows, delete_assignment_of,
    delete_assignment_statement, insert_assignment_of, insert_assignment_statement,
    LIST_ASSIGNMENTS_SQL,
};
use crate::attachments::{record_of, record_statement, AttachmentKind};
use crate::evaluations::{
    delete_evaluation_of, delete_evaluation_statement, evaluation_reads, evaluation_shape,
    evaluations_from_rows, insert_evaluation_of, insert_evaluation_statement, score_in_range,
    LIST_EVALUATIONS_SQL, SCORE_CONSTRAINT_MESSAGE,
};
use crate::model::{Assignment, Evaluation, InternFiles, InternLite, InternPayload};
use crate::persons::{
    delete_intern_of, delete_intern_statement, insert_intern_of, insert_intern_statement,
    intern_files_from_rows, intern_files_reads, intern_lite_reads, intern_lite_shape,
    interns_from_rows, update_intern_of, update_intern_statement, COUNT_INTERNS_SQL,
    COUNT_MISSING_NOTE_SQL, INTERN_FILES_SQL, LIST_INTERNS_SQL,
};
use crate::rows::{
    count_from_rows, count_of, count_or_zero, fault, fault_text, fits, rows_fault, Fault,
};
use crate::schema::{ensure_schema, reconciliation};
use crate::statements::SqlStatement;
use crate::store::{
    asked, extends, inserted, lenient_query_of, query_of, rows_answer, written, Answer, Request,
    Store,
};
use crate::value::{params_data, row_data, SqlData, SqlParam, SqlValue};

verus! {

/// Whether `r` gives back the persons that the rows of the list query hold:
/// one person for each row, in the order of the rows, where every row fits;
/// and otherwise the fault of the first row that does not.
pub open spec fn interns_read(
    rows: Seq<Vec<SqlValue>>,
    r: Result<Vec<InternLite>, String>,
) -> bool {
    match r {
        Ok(list) => {
            &&& list@.len() == rows.len()
            &&& forall|k: int|
                0 <= k < rows.len() ==> fits(row_data((#[trigger] rows[k])@), intern_lite_shape())
                    && intern_lite_reads(list@[k], row_data(rows[k]@))
        },
        Err(message) => exists|f: Fault|
            #[trigger] rows_fault(rows, intern_lite_shape(), f) && message@ == fault_text(f),
    }
}

/// Whether `r` gives back the assignments that the rows of the list query
/// hold, as [`interns_read`] does for persons.
pub open spec fn assignments_read(
    rows: Seq<Vec<SqlValue>>,
    r: Result<Vec<Assignment>, String>,
) -> bool {
    match r {
        Ok(list) => {
            &&& list@.len() == rows.len()
            &&& forall|k: int|
                0 <= k < rows.len() ==> fits(row_data((#[trigger] rows[k])@), assignment_shape())
                    && assignment_reads(list@[k], row_data(rows[k]@))
        },
        Err(message) => exists|f: Fault|
            #[trigger] rows_fault(rows, assignment_shape(), f) && message@ == fault_text(f),
    }
}

/// Whether `r` gives back the evaluations that the rows of the list query
/// hold, as [`interns_read`] does for persons.
pub open spec fn evaluations_read(
    rows: Seq<Vec<SqlValue>>,
    r: Result<Vec<Evaluation>, String>,
) -> bool {
    match r {
        Ok(list) => {
            &&& list@.len() == rows.len()
            &&& forall|k: int|
                0 <= k < rows.len() ==> fits(row_data((#[trigger] rows[k])@), evaluation_shape())
                    && evaluation_reads(list@[k], row_data(rows[k]@))
        },
        Err(message) => exists|f: Fault|
            #[trigger] rows_fault(rows, evaluation_shape(), f) && message@ == fault_text(f),
    }
}

/// Whether `r` gives back the attachment pair that the rows of the files
/// query hold: the pair read from the first row, and the fault of a missing
/// row where no person has the identity asked for.
pub open spec fn files_read(rows: Seq<Vec<SqlValue>>, r: Result<InternFiles, String>) -> bool {
    if rows.len() > 0 {
        r matches Ok(files) && intern_files_reads(files, row_data(rows[0]@))
    } else {
        r matches Err(message) && message@ == fault_text(Fault::NoRows)
    }
}

/// Whether `r` gives back the count that the rows of a counting query hold,
/// and the fault of an answer without a count.
pub open spec fn count_read(rows: Seq<Vec<SqlValue>>, r: Result<i64, String>) -> bool {
    match count_of(rows) {
        Some(n) => r == Ok::<i64, String>(n),
        None => r matches Err(message) && message@ == fault_text(
            if rows.len() == 0 {
                Fault::NoRows
            } else {
                fault(row_data(rows[0]@), 0, "COUNT(*)"@)
            },
        ),
    }
}

/// The count that a report takes from the answer to the counting query:
/// the count the answer holds, and zero for every other answer.
pub open spec fn count_reported(answer: Answer) -> i64 {
    match answer {
        Answer::Rows { rows } => match count_of(rows) {
            Some(n) => n,
            None => 0,
        },
        _ => 0,
    }
}

/// The error that stands behind a failed answer: the store's text as it is.
pub open spec fn failed_as<T>(answer: Answer, r: Result<T, String>) -> bool {
    answer matches Answer::Failed { text } && r matches Err(message) && message@ == text
}

fn run_insert(store: &mut Store, stmt: &SqlStatement) -> (r: Result<i64, String>)
    ensures
        extends(final(store).exchanges(), old(store).exchanges()),
        inserted(final(store).exchanges().skip(old(store).exchanges().len() as int), stmt@, r),
{
    let ghost before = store.exchanges();
    let done = store.run(stmt);
    let ghost ran = store.exchanges();
    proof {
        assert(ran.subrange(0, before.len() as int) =~= before);
        assert(ran.skip(before.len() as int) =~= seq![ran.last()]);
    }
    match done {
        Ok(_) => {
            let id = store.last_insert_rowid();
            proof {
                let last = store.exchanges();
                assert(last.subrange(0, before.len() as int) =~= before);
                assert(last.skip(before.len() as int) =~= seq![ran.last(), last.last()]);
            }
            Ok(id)
        },
        Err(message) => Err(message),
    }
}

fn run_change(store: &mut Store, stmt: &SqlStatement) -> (r: Result<(), String>)
    ensures
        asked(
            final(store).exchanges(),
            old(store).exchanges(),
            Request::Change { statement: stmt@ },
        ),
        written(final(store).exchanges().last().answer, r),
{
    let ghost before = store.exchanges();
    let done = store.run(stmt);
    assert(store.exchanges().drop_last() =~= before);
    match done {
        Ok(_) => Ok(()),
        Err(message) => Err(message),
    }
}

fn query(store: &mut Store, sql: &str, params: &Vec<SqlParam>, lenient: bool) -> (r: Result<
    Vec<Vec<SqlValue>>,
    String,
>)
    ensures
        asked(
            final(store).exchanges(),
            old(store).exchanges(),
            if lenient {
                lenient_query_of(sql@, params_data(params@))
            } else {
                query_of(sql@, params_data(params@))
            },
        ),
        final(store).exchanges().last().answer == rows_answer(r),
{
    let ghost before = store.exchanges();
    let r = if lenient {
        store.query_rows_lenient(sql, params)
    } else {
        store.query_rows(sql, params)
    };
    assert(store.exchanges().drop_last() =~= before);
    r
}

fn no_params() -> (params: Vec<SqlParam>)
    ensures
        params_data(params@) == Seq::<SqlData>::empty(),
{
    let params: Vec<SqlParam> = Vec::new();
    assert(params_data(params@) =~= Seq::<SqlData>::empty());
    params
}

fn one_integer(i: i64) -> (params: Vec<SqlParam>)
    ensures
        params_data(params@) == seq![SqlData::Integer(i)],
{
    let mut params: Vec<SqlParam> = Vec::new();
    params.push(SqlParam::Integer(i));
    assert(params_data(params@) =~= seq![SqlData::Integer(i)]);
    params
}

/// Lists the persons in name order, family name first. The store is asked
/// the one list query, which orders them. The rows it answers with are read
/// one person each and in their order; its error comes back as it is.
pub fn get_interns_from_db(store: &mut Store) -> (r: Result<Vec<InternLite>, String>)
    ensures
        asked(
            final(store).exchanges(),
            old(store).exchanges(),
            query_of(LIST_INTERNS_SQL@, Seq::<SqlData>::empty()),
        ),
        match final(store).exchanges().last().answer {
            Answer::Rows { rows } => interns_read(rows, r),
            other => failed_as(other, r),
        },
{
    let params = no_params();
    let rows = match query(store, LIST_INTERNS_SQL, &params, false) {
        Ok(rows) => rows,
        Err(message) => {
            return Err(message);
        },
    };
    match interns_from_rows(&rows) {
        Ok(list) => Ok(list),
        Err(e) => {
            let message = e.message();
            assert(rows_fault(rows@, intern_lite_shape(), e@) && message@ == fault_text(e@));
            Err(message)
        },
    }
}

/// Fetches the attachment pair of the person with identity `id`. The store
/// is asked the one files query, bound to the identity and read leniently.
/// The first row of its answer is read; a column that cannot be read leaves
/// its field absent.
/// That no person has the identity is an error, and the store's error comes
/// back as it is.
pub fn get_intern_files(store: &mut Store, id: i64) -> (r: Result<InternFiles, String>)
    ensures
        asked(
            final(store).exchanges(),
            old(store).exchanges(),
            lenient_query_of(INTERN_FILES_SQL@, seq![SqlData::Integer(id)]),
        ),
        match final(store).exchanges().last().answer {
            Answer::Rows { rows } => files_read(rows, r),
            other => failed_as(other, r),
        },
{
    let params = one_integer(id);
    let rows = match query(store, INTERN_FILES_SQL, &params, true) {
        Ok(rows) => rows,
        Err(message) => {
            return Err(message);
        },
    };
    match intern_files_from_rows(&rows) {
        Ok(files) => Ok(files),
        Err(e) => Err(e.message()),
    }
}

/// Creates a person and gives the identity that the store assigned. The
/// store is handed the one insertion of
/// [`insert_intern_of`](crate::persons::insert_intern_of). Where it ran the
/// insertion it is asked for the identity of the new row, which is the
/// result; its error comes back as it is.
pub fn add_intern(store: &mut Store, intern: &InternPayload) -> (r: Result<i64, String>)
    ensures
        extends(final(store).exchanges(), old(store).exchanges()),
        inserted(
            final(store).exchanges().skip(old(store).exchanges().len() as int),
            insert_intern_of(*intern),
            r,
        ),
{
    let stmt = insert_intern_statement(intern);
    run_insert(store, &stmt)
}

/// Changes the person with identity `id`: the scalar fields always, the
/// path, name, MIME type and bytes of an attachment only where the request
/// carries a name, a MIME type or bytes for it. The store is handed the one
/// update of [`update_intern_of`](crate::persons::update_intern_of), which
/// never writes the identity; the store's error comes back as it is.
pub fn update_intern(store: &mut Store, id: i64, intern: &InternPayload) -> (r: Result<(), String>)
    ensures
        asked(
            final(store).exchanges(),
            old(store).exchanges(),
            Request::Change { statement: update_intern_of(id, *intern) },
        ),
        written(final(store).exchanges().last().answer, r),
{
    let stmt = update_intern_statement(id, intern);
    run_change(store, &stmt)
}

/// Deletes the person with identity `id`. The store is handed the one
/// deletion and nothing else: the assignments and evaluations of the person
/// go with it by the cascade that the schema declares. The store's error
/// comes back as it is.
pub fn delete_intern(store: &mut Store, id: i64) -> (r: Result<(), String>)
    ensures
        asked(
            final(store).exchanges(),
            old(store).exchanges(),
            Request::Change { statement: delete_intern_of(id) },
        ),
        written(final(store).exchanges().last().answer, r),
{
    let stmt = delete_intern_statement(id);
    run_change(store, &stmt)
}

/// Records on the row of the person with identity `id` the path of an
/// attachment that was just written, with its name and MIME type. The store
/// is handed the one update of
/// [`record_of`](crate::attachments::record_of); its error comes back as it
/// is.
pub fn record_attachment(
    store: &mut Store,
    id: i64,
    kind: AttachmentKind,
    path: &str,
    name: &Option<String>,
    mime: &Option<String>,
) -> (r: Result<(), String>)
    ensures
        asked(
            final(store).exchanges(),
            old(store).exchanges(),
            Request::Change { statement: record_of(id, kind, path@, *name, *mime) },
        ),
        written(final(store).exchanges().last().answer, r),
{
    let stmt = record_statement(id, kind, path, name, mime);
    run_change(store, &stmt)
}

/// Creates an assignment and gives the identity that the store assigned.
/// The store is handed the one insertion of
/// [`insert_assignment_of`](crate::assignments::insert_assignment_of). Where
/// it ran the insertion it is asked for the identity of the new row, which
/// is the result. It refuses an assignment whose person does not exist, and
/// its error comes back as it is.
pub fn add_assignment(store: &mut Store, a: &Assignment) -> (r: Result<i64, String>)
    ensures
        extends(final(store).exchanges(), old(store).exchanges()),
        inserted(
            final(store).exchanges().skip(old(store).exchanges().len() as int),
            insert_assignment_of(*a),
            r,
        ),
{
    let stmt = insert_assignment_statement(a);
    run_insert(store, &stmt)
}

/// Lists the assignments, the earliest due date first. The store is asked
/// the one list query, which orders them. The rows it answers with are read
/// one assignment each and in their order; its error comes back as it is.
pub fn get_assignments(store: &mut Store) -> (r: Result<Vec<Assignment>, String>)
    ensures
        asked(
            final(store).exchanges(),
            old(store).exchanges(),
            query_of(LIST_ASSIGNMENTS_SQL@, Seq::<SqlData>::empty()),
        ),
        match final(store).exchanges().last().answer {
            Answer::Rows { rows } => assignments_read(rows, r),
            other => failed_as(other, r),
        },
{
    let params = no_params();
    let rows = match query(store, LIST_ASSIGNMENTS_SQL, &params, false) {
        Ok(rows) => rows,
        Err(message) => {
            return Err(message);
        },
    };
    match assignments_from_rows(&rows) {
        Ok(list) => Ok(list),
        Err(e) => {
            let message = e.message();
            assert(rows_fault(rows@, assignment_shape(), e@) && message@ == fault_text(e@));
            Err(message)
        },
    }
}

/// Deletes the assignment with identity `id`. The store is handed the one
/// deletion; its error comes back as it is.
pub fn delete_assignment(store: &mut Store, id: i64) -> (r: Result<(), String>)
    ensures
        asked(
            final(store).exchanges(),
            old(store).exchanges(),
            Request::Change { statement: delete_assignment_of(id) },
        ),
        written(final(store).exchanges().last().answer, r),
{
    let stmt = delete_assignment_statement(id);
    run_change(store, &stmt)
}

/// Creates an evaluation and gives the identity that the store assigned. A
/// score outside 0 to 100 is refused with the constraint it violates, and
/// the store is not asked. For every other score the store is handed the one
/// insertion of
/// [`insert_evaluation_of`](crate::evaluations::insert_evaluation_of). Where
/// it ran the insertion it is asked for the identity of the new row, which
/// is the result; its error comes back as it is.
pub fn add_evaluation(store: &mut Store, e: &Evaluation) -> (r: Result<i64, String>)
    ensures
        extends(final(store).exchanges(), old(store).exchanges()),
        score_in_range(e.score as int) ==> inserted(
            final(store).exchanges().skip(old(store).exchanges().len() as int),
            insert_evaluation_of(*e),
            r,
        ),
        !score_in_range(e.score as int) ==> final(store).exchanges() == old(store).exchanges()
            && (r matches Err(message) && message@ == SCORE_CONSTRAINT_MESSAGE@),
{
    match insert_evaluation_statement(e) {
        Ok(stmt) => run_insert(store, &stmt),
        Err(refusal) => {
            assert(store.exchanges().subrange(0, store.exchanges().len() as int)
                =~= store.exchanges());
            Err(refusal.message())
        },
    }
}

/// Lists the evaluations of the person with identity `intern_id`, the newest
/// first. The store is asked the one list query, bound to the identity,
/// which picks and orders them. The rows it answers with are read one
/// evaluation each and in their order; its error comes back as it is.
pub fn get_evaluations(store: &mut Store, intern_id: i64) -> (r: Result<Vec<Evaluation>, String>)
    ensures
        asked(
            final(store).exchanges(),
            old(store).exchanges(),
            query_of(LIST_EVALUATIONS_SQL@, seq![SqlData::Integer(intern_id)]),
        ),
        match final(store).exchanges().last().answer {
            Answer::Rows { rows } => evaluations_read(rows, r),
            other => failed_as(other, r),
        },
{
    let params = one_integer(intern_id);
    let rows = match query(store, LIST_EVALUATIONS_SQL, &params, false) {
        Ok(rows) => rows,
        Err(message) => {
            return Err(message);
        },
    };
    match evaluations_from_rows(&rows) {
        Ok(list) => Ok(list),
        Err(e) => {
            let message = e.message();
            assert(rows_fault(rows@, evaluation_shape(), e@) && message@ == fault_text(e@));
            Err(message)
        },
    }
}

/// Deletes the evaluation with identity `id`. The store is handed the one
/// deletion; its error comes back as it is.
pub fn delete_evaluation(store: &mut Store, id: i64) -> (r: Result<(), String>)
    ensures
        asked(
            final(store).exchanges(),
            old(store).exchanges(),
            Request::Change { statement: delete_evaluation_of(id) },
        ),
        written(final(store).exchanges().last().answer, r),
{
    let stmt = delete_evaluation_statement(id);
    run_change(store, &stmt)
}

/// Counts the persons that have no evaluation created on the calendar date
/// `date`. The store is asked the one counting query, bound to the date,
/// and the count is read from its answer; its error comes back as it is.
pub fn count_interns_missing_note_for_date(store: &mut Store, date: &str) -> (r: Result<
    i64,
    String,
>)
    ensures
        asked(
            final(store).exchanges(),
            old(store).exchanges(),
            query_of(COUNT_MISSING_NOTE_SQL@, seq![SqlData::Text(date@)]),
        ),
        match final(store).exchanges().last().answer {
            Answer::Rows { rows } => count_read(rows, r),
            other => failed_as(other, r),
        },
{
    let mut params: Vec<SqlParam> = Vec::new();
    params.push(SqlParam::Text(date.to_string()));
    assert(params_data(params@) =~= seq![SqlData::Text(date@)]);
    let rows = match query(store, COUNT_MISSING_NOTE_SQL, &params, false) {
        Ok(rows) => rows,
        Err(message) => {
            return Err(message);
        },
    };
    match count_from_rows(&rows) {
        Ok(n) => Ok(n),
        Err(e) => Err(e.message()),
    }
}

/// The request that counts the persons.
pub open spec fn count_interns_request() -> Request {
    query_of(COUNT_INTERNS_SQL@, Seq::<SqlData>::empty())
}

/// Reconciles the schema of an open database and reports `db_path` together
/// with the number of persons. A reconciliation that fails is the error,
/// and the persons are not counted then. Once the schema is reconciled the
/// persons are counted and the report is made whatever the store answers:
/// the count is what [`count_reported`] takes from the answer, zero where it
/// holds none.
pub fn snapshot(store: &mut Store, db_path: &str) -> (r: Result<(String, i64), String>)
    ensures
        extends(final(store).exchanges(), old(store).exchanges()),
        ({
            let added = final(store).exchanges().skip(old(store).exchanges().len() as int);
            match r {
                Ok(report) => {
                    &&& added.len() >= 1
                    &&& reconciliation(added.drop_last(), None)
                    &&& added.last().request == count_interns_request()
                    &&& report.0@ == db_path@
                    &&& report.1 == count_reported(added.last().answer)
                },
                Err(message) => reconciliation(added, Some(message@)),
            }
        }),
{
    let ghost before = store.exchanges();
    if let Err(message) = ensure_schema(store) {
        return Err(message);
    }
    let ghost reconciled = store.exchanges();
    let params = no_params();
    let answer = query(store, COUNT_INTERNS_SQL, &params, false);
    proof {
        let last = store.exchanges();
        assert(last.subrange(0, before.len() as int) =~= reconciled.subrange(
            0,
            before.len() as int,
        ));
        assert(last.skip(before.len() as int).drop_last() =~= reconciled.skip(
            before.len() as int,
        ));
    }
    Ok((db_path.to_string(), count_or_zero(&answer)))
}

/// Opens the database at `db_path` on a connection of its own, reconciles
/// its schema, and reports the path together with the number of persons, as
/// [`snapshot`] does on the store it opened. A database that cannot be
/// opened is an error too.
pub fn debug_db_snapshot(db_path: &str) -> (r: Result<(String, i64), String>)
    ensures
        r matches Ok(snapshot) ==> snapshot.0@ == db_path@,
{
    let mut store = match Store::open(db_path) {
        Ok(store) => store,
        Err(message) => {
            return Err(message);
        },
    };
    snapshot(&mut store, db_path)
}

} // verus!
