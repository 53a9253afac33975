//! The statements that create, change, list and delete persons, and the
//! reading of their rows.

use vstd::prelude::*;
use crate::model::{InternFiles, InternLite, InternPayload};
use crate::rows::{
    blob_view, check_row, fits, integer_of, lenient_blob, lenient_blob_at, lenient_text,
    lenient_text_at, optional_integer_in, optional_text_in, row_fault, rows_fault, shape_of,
    text_in, text_of, text_view, Expect, Fault, Field, FieldDef, RowError,
};
use crate::statements::{
    delete_of, insert_of, render_delete, render_insert, render_update, update_of, write_pairs,
    ColumnWrite, SqlStatement, StatementData, Write,
};
use crate::value::{
    blob_or_null, optional_blob_param, optional_text_param, row_data, text_or_null, text_param,
    SqlData, SqlValue,
};

verus! {

/// The table that holds the persons.
pub const INTERNS_TABLE: &'static str = "interns";

/// Lists every person in name order, family name first: the scalar fields
/// and the names of the two attachments.
pub const LIST_INTERNS_SQL: &'static str =
    "SELECT id, first_name, last_name, school, department, start_date, end_date, status, contact, email, cv_name, photo_name FROM interns ORDER BY last_name, first_name";

/// Reads the attachment pair of one person.
pub const INTERN_FILES_SQL: &'static str =
    "SELECT cv_name, cv_mime, cv_blob, photo_name, photo_mime, photo_blob, cv_path, photo_path FROM interns WHERE id = ?1";

/// Counts the persons.
pub const COUNT_INTERNS_SQL: &'static str = "SELECT COUNT(*) FROM interns";

/// Counts the persons that have no evaluation created on the calendar date
/// bound to `?1`.
pub const COUNT_MISSING_NOTE_SQL: &'static str =
    "SELECT COUNT(*) FROM interns i LEFT JOIN evaluations e ON e.intern_id = i.id AND date(e.created_at) = date(?1) WHERE e.id IS NULL";

/// The nine scalar fields of a person, as every create and every update
/// writes them.
pub open spec fn scalar_writes(p: InternPayload) -> Seq<Write> {
    seq![
        ("first_name"@, SqlData::Text(p.first_name@)),
        ("last_name"@, SqlData::Text(p.last_name@)),
        ("school"@, SqlData::Text(p.school@)),
        ("department"@, SqlData::Text(p.department@)),
        ("start_date"@, SqlData::Text(p.start_date@)),
        ("end_date"@, text_or_null(p.end_date)),
        ("status"@, SqlData::Text(p.status@)),
        ("contact"@, SqlData::Text(p.contact@)),
        ("email"@, SqlData::Text(p.email@)),
    ]
}

/// Path, name, MIME type and bytes of the CV.
pub open spec fn cv_writes(p: InternPayload) -> Seq<Write> {
    seq![
        ("cv_path"@, text_or_null(p.cv_path)),
        ("cv_name"@, text_or_null(p.cv_name)),
        ("cv_mime"@, text_or_null(p.cv_mime)),
        ("cv_blob"@, blob_or_null(p.cv_blob)),
    ]
}

/// Path, name, MIME type and bytes of the photo.
pub open spec fn photo_writes(p: InternPayload) -> Seq<Write> {
    seq![
        ("photo_path"@, text_or_null(p.photo_path)),
        ("photo_name"@, text_or_null(p.photo_name)),
        ("photo_mime"@, text_or_null(p.photo_mime)),
        ("photo_blob"@, blob_or_null(p.photo_blob)),
    ]
}

/// What a create writes: every scalar field and both attachments.
pub open spec fn insert_writes(p: InternPayload) -> Seq<Write> {
    scalar_writes(p) + cv_writes(p) + photo_writes(p)
}

/// What an update writes: the nine scalar fields always; the four columns
/// of an attachment (path, name, MIME type and bytes) only when the request
/// carries a name, a MIME type or bytes for it. An update that carries none
/// of them for an attachment leaves what is stored of it as it is.
pub open spec fn update_writes(p: InternPayload) -> Seq<Write> {
    scalar_writes(p) + (if p.supplies_cv() {
        cv_writes(p)
    } else {
        Seq::<Write>::empty()
    }) + (if p.supplies_photo() {
        photo_writes(p)
    } else {
        Seq::<Write>::empty()
    })
}

/// Whether `column` is one of the eight columns that hold an attachment's
/// path, name, MIME type or bytes.
pub open spec fn is_attachment_column(column: Seq<char>) -> bool {
    ||| column == "cv_path"@
    ||| column == "photo_path"@
    ||| column == "cv_name"@
    ||| column == "cv_mime"@
    ||| column == "cv_blob"@
    ||| column == "photo_name"@
    ||| column == "photo_mime"@
    ||| column == "photo_blob"@
}

fn push_scalar_writes(out: &mut Vec<ColumnWrite>, p: &InternPayload)
    ensures
        write_pairs(final(out)@) == write_pairs(old(out)@) + scalar_writes(*p),
{
    let ghost start = write_pairs(out@);
    out.push(ColumnWrite { column: "first_name", value: text_param(&p.first_name) });
    out.push(ColumnWrite { column: "last_name", value: text_param(&p.last_name) });
    out.push(ColumnWrite { column: "school", value: text_param(&p.school) });
    out.push(ColumnWrite { column: "department", value: text_param(&p.department) });
    out.push(ColumnWrite { column: "start_date", value: text_param(&p.start_date) });
    out.push(ColumnWrite { column: "end_date", value: optional_text_param(&p.end_date) });
    out.push(ColumnWrite { column: "status", value: text_param(&p.status) });
    out.push(ColumnWrite { column: "contact", value: text_param(&p.contact) });
    out.push(ColumnWrite { column: "email", value: text_param(&p.email) });
    assert(write_pairs(out@) =~= start + scalar_writes(*p));
}

fn push_cv_writes(out: &mut Vec<ColumnWrite>, p: &InternPayload)
    ensures
        write_pairs(final(out)@) == write_pairs(old(out)@) + cv_writes(*p),
{
    let ghost start = write_pairs(out@);
    out.push(ColumnWrite { column: "cv_path", value: optional_text_param(&p.cv_path) });
    out.push(ColumnWrite { column: "cv_name", value: optional_text_param(&p.cv_name) });
    out.push(ColumnWrite { column: "cv_mime", value: optional_text_param(&p.cv_mime) });
    out.push(ColumnWrite { column: "cv_blob", value: optional_blob_param(&p.cv_blob) });
    assert(write_pairs(out@) =~= start + cv_writes(*p));
}

fn push_photo_writes(out: &mut Vec<ColumnWrite>, p: &InternPayload)
    ensures
        write_pairs(final(out)@) == write_pairs(old(out)@) + photo_writes(*p),
{
    let ghost start = write_pairs(out@);
    out.push(ColumnWrite { column: "photo_path", value: optional_text_param(&p.photo_path) });
    out.push(ColumnWrite { column: "photo_name", value: optional_text_param(&p.photo_name) });
    out.push(ColumnWrite { column: "photo_mime", value: optional_text_param(&p.photo_mime) });
    out.push(ColumnWrite { column: "photo_blob", value: optional_blob_param(&p.photo_blob) });
    assert(write_pairs(out@) =~= start + photo_writes(*p));
}

/// The columns a create writes, with their values.
pub fn intern_insert_writes(p: &InternPayload) -> (writes: Vec<ColumnWrite>)
    ensures
        write_pairs(writes@) == insert_writes(*p),
{
    let mut writes: Vec<ColumnWrite> = Vec::new();
    assert(write_pairs(writes@) =~= Seq::<Write>::empty());
    push_scalar_writes(&mut writes, p);
    push_cv_writes(&mut writes, p);
    push_photo_writes(&mut writes, p);
    assert(write_pairs(writes@) =~= insert_writes(*p));
    writes
}

/// The columns an update writes, with their values.
pub fn intern_update_writes(p: &InternPayload) -> (writes: Vec<ColumnWrite>)
    ensures
        write_pairs(writes@) == update_writes(*p),
{
    let mut writes: Vec<ColumnWrite> = Vec::new();
    assert(write_pairs(writes@) =~= Seq::<Write>::empty());
    push_scalar_writes(&mut writes, p);
    if p.has_cv_fields() {
        push_cv_writes(&mut writes, p);
    }
    if p.has_photo_fields() {
        push_photo_writes(&mut writes, p);
    }
    assert(write_pairs(writes@) =~= update_writes(*p));
    writes
}

/// The statement that creates a person: one insertion into the persons'
/// table of what [`insert_writes`] lists.
pub open spec fn insert_intern_of(p: InternPayload) -> StatementData {
    insert_of(INTERNS_TABLE@, insert_writes(p))
}

/// The statement that changes the person with identity `id`: one update of
/// what [`update_writes`] lists.
pub open spec fn update_intern_of(id: i64, p: InternPayload) -> StatementData {
    update_of(INTERNS_TABLE@, update_writes(p), id)
}

/// The statement that deletes the person with identity `id`.
pub open spec fn delete_intern_of(id: i64) -> StatementData {
    delete_of(INTERNS_TABLE@, id)
}

/// Makes the statement that creates a person.
pub fn insert_intern_statement(p: &InternPayload) -> (stmt: SqlStatement)
    ensures
        stmt@ == insert_intern_of(*p),
{
    let writes = intern_insert_writes(p);
    render_insert(INTERNS_TABLE, &writes)
}

/// Makes the statement that changes the person with identity `id`.
pub fn update_intern_statement(id: i64, p: &InternPayload) -> (stmt: SqlStatement)
    ensures
        stmt@ == update_intern_of(id, *p),
{
    let writes = intern_update_writes(p);
    render_update(INTERNS_TABLE, &writes, id)
}

/// Makes the statement that deletes the person with identity `id`.
pub fn delete_intern_statement(id: i64) -> (stmt: SqlStatement)
    ensures
        stmt@ == delete_intern_of(id),
{
    render_delete(INTERNS_TABLE, id)
}

/// No create and no update writes the identity of a person: the store
/// assigns it, and it stays what it is.
pub proof fn identity_is_never_written(p: InternPayload)
    ensures
        forall|i: int|
            0 <= i < insert_writes(p).len() ==> (#[trigger] insert_writes(p)[i]).0 != "id"@,
        forall|i: int|
            0 <= i < update_writes(p).len() ==> (#[trigger] update_writes(p)[i]).0 != "id"@,
{
    reveal_strlit("id");
    reveal_strlit("first_name");
    reveal_strlit("last_name");
    reveal_strlit("school");
    reveal_strlit("department");
    reveal_strlit("start_date");
    reveal_strlit("end_date");
    reveal_strlit("status");
    reveal_strlit("contact");
    reveal_strlit("email");
    reveal_strlit("cv_path");
    reveal_strlit("photo_path");
    reveal_strlit("cv_name");
    reveal_strlit("cv_mime");
    reveal_strlit("cv_blob");
    reveal_strlit("photo_name");
    reveal_strlit("photo_mime");
    reveal_strlit("photo_blob");
    assert forall|i: int| 0 <= i < insert_writes(p).len() implies (#[trigger] insert_writes(
        p,
    )[i]).0.len() > 2 by {
        if i < 9 {
            assert(insert_writes(p)[i] == scalar_writes(p)[i]);
        } else if i < 13 {
            assert(insert_writes(p)[i] == cv_writes(p)[i - 9]);
        } else {
            assert(insert_writes(p)[i] == photo_writes(p)[i - 13]);
        }
    }
    assert forall|i: int| 0 <= i < update_writes(p).len() implies (#[trigger] update_writes(
        p,
    )[i]).0.len() > 2 by {
        if i < 9 {
            assert(update_writes(p)[i] == scalar_writes(p)[i]);
        } else if p.supplies_cv() && i < 13 {
            assert(update_writes(p)[i] == cv_writes(p)[i - 9]);
        } else if p.supplies_cv() {
            assert(update_writes(p)[i] == photo_writes(p)[i - 13]);
        } else {
            assert(update_writes(p)[i] == photo_writes(p)[i - 9]);
        }
    }
}

/// An update that carries no name, no MIME type and no bytes for either
/// attachment writes the nine scalar fields and nothing else: none of the
/// eight columns that hold an attachment's path, name, MIME type or bytes is
/// named in it, so what is stored of both attachments stays as it is.
pub proof fn update_without_attachment_fields_keeps_attachments(p: InternPayload)
    requires
        !p.supplies_cv(),
        !p.supplies_photo(),
    ensures
        update_writes(p) == scalar_writes(p),
        forall|i: int|
            0 <= i < update_writes(p).len() ==> !is_attachment_column(
                #[trigger] update_writes(p)[i].0,
            ),
{
    assert(update_writes(p) =~= scalar_writes(p));
    reveal_strlit("first_name");
    reveal_strlit("last_name");
    reveal_strlit("school");
    reveal_strlit("department");
    reveal_strlit("start_date");
    reveal_strlit("end_date");
    reveal_strlit("status");
    reveal_strlit("contact");
    reveal_strlit("email");
    reveal_strlit("cv_path");
    reveal_strlit("photo_path");
    reveal_strlit("cv_name");
    reveal_strlit("cv_mime");
    reveal_strlit("cv_blob");
    reveal_strlit("photo_name");
    reveal_strlit("photo_mime");
    reveal_strlit("photo_blob");
    let w = update_writes(p);
    assert forall|i: int| 0 <= i < w.len() implies !is_attachment_column(#[trigger] w[i].0) by {
        let column = w[i].0;
        // An attachment column starts with `cv_` or with `photo_`; no scalar
        // column of its length does.
        if column.len() == 10 {
            assert(column[0] != 'p');
            assert("photo_name"@[0] == 'p' && "photo_mime"@[0] == 'p' && "photo_blob"@[0] == 'p'
                && "photo_path"@[0] == 'p');
        } else if column.len() == 7 {
            assert(column[1] == 'o');
            assert("cv_name"@[1] == 'v' && "cv_mime"@[1] == 'v' && "cv_blob"@[1] == 'v'
                && "cv_path"@[1] == 'v');
        }
    }
}

/// The columns of a listed person and what each field accepts.
pub open spec fn intern_lite_shape() -> Seq<Field> {
    seq![
        ("id"@, Expect::OptionalInteger),
        ("first_name"@, Expect::Text),
        ("last_name"@, Expect::Text),
        ("school"@, Expect::Text),
        ("department"@, Expect::Text),
        ("start_date"@, Expect::Text),
        ("end_date"@, Expect::OptionalText),
        ("status"@, Expect::Text),
        ("contact"@, Expect::Text),
        ("email"@, Expect::Text),
        ("cv_name"@, Expect::OptionalText),
        ("photo_name"@, Expect::OptionalText),
    ]
}

/// Whether each field of `x` holds what the column of its position holds.
pub open spec fn intern_lite_reads(x: InternLite, row: Seq<SqlData>) -> bool {
    &&& x.id == integer_of(row[0])
    &&& Some(x.first_name@) == text_of(row[1])
    &&& Some(x.last_name@) == text_of(row[2])
    &&& Some(x.school@) == text_of(row[3])
    &&& Some(x.department@) == text_of(row[4])
    &&& Some(x.start_date@) == text_of(row[5])
    &&& text_view(x.end_date) == text_of(row[6])
    &&& Some(x.status@) == text_of(row[7])
    &&& Some(x.contact@) == text_of(row[8])
    &&& Some(x.email@) == text_of(row[9])
    &&& text_view(x.cv_name) == text_of(row[10])
    &&& text_view(x.photo_name) == text_of(row[11])
}

/// The fields of one listed person, in the order of the columns.
pub fn intern_lite_fields() -> (fields: Vec<FieldDef>)
    ensures
        shape_of(fields@) == intern_lite_shape(),
{
    let mut fields: Vec<FieldDef> = Vec::new();
    fields.push(FieldDef { column: "id", expect: Expect::OptionalInteger });
    fields.push(FieldDef { column: "first_name", expect: Expect::Text });
    fields.push(FieldDef { column: "last_name", expect: Expect::Text });
    fields.push(FieldDef { column: "school", expect: Expect::Text });
    fields.push(FieldDef { column: "department", expect: Expect::Text });
    fields.push(FieldDef { column: "start_date", expect: Expect::Text });
    fields.push(FieldDef { column: "end_date", expect: Expect::OptionalText });
    fields.push(FieldDef { column: "status", expect: Expect::Text });
    fields.push(FieldDef { column: "contact", expect: Expect::Text });
    fields.push(FieldDef { column: "email", expect: Expect::Text });
    fields.push(FieldDef { column: "cv_name", expect: Expect::OptionalText });
    fields.push(FieldDef { column: "photo_name", expect: Expect::OptionalText });
    assert(shape_of(fields@) =~= intern_lite_shape());
    fields
}

/// Reads one listed person from a row of the list query. The row is taken
/// when every column holds what its field accepts; otherwise the fault of
/// the first column that does not is reported.
pub fn intern_lite_from_row(row: &Vec<SqlValue>) -> (r: Result<InternLite, RowError>)
    ensures
        match r {
            Ok(x) => fits(row_data(row@), intern_lite_shape()) && intern_lite_reads(
                x,
                row_data(row@),
            ),
            Err(e) => row_fault(row_data(row@), intern_lite_shape(), e@),
        },
{
    let fields = intern_lite_fields();
    if let Err(e) = check_row(row, &fields) {
        return Err(e);
    }
    Ok(
        InternLite {
            id: optional_integer_in(row, 0),
            first_name: text_in(row, 1),
            last_name: text_in(row, 2),
            school: text_in(row, 3),
            department: text_in(row, 4),
            start_date: text_in(row, 5),
            end_date: optional_text_in(row, 6),
            status: text_in(row, 7),
            contact: text_in(row, 8),
            email: text_in(row, 9),
            cv_name: optional_text_in(row, 10),
            photo_name: optional_text_in(row, 11),
        },
    )
}

/// Reads the listed persons from the rows of the list query, one person for
/// each row and in the order of the rows. The first row that does not fit
/// stops the reading with its fault.
pub fn interns_from_rows(rows: &Vec<Vec<SqlValue>>) -> (r: Result<Vec<InternLite>, RowError>)
    ensures
        match r {
            Ok(list) => {
                &&& list@.len() == rows@.len()
                &&& forall|k: int|
                    0 <= k < rows@.len() ==> fits(
                        row_data((#[trigger] rows@[k])@),
                        intern_lite_shape(),
                    ) && intern_lite_reads(list@[k], row_data(rows@[k]@))
            },
            Err(e) => rows_fault(rows@, intern_lite_shape(), e@),
        },
{
    let mut list: Vec<InternLite> = Vec::new();
    let mut k: usize = 0;
    while k < rows.len()
        invariant
            k <= rows@.len(),
            list@.len() == k,
            forall|j: int|
                0 <= j < k ==> fits(row_data((#[trigger] rows@[j])@), intern_lite_shape())
                    && intern_lite_reads(list@[j], row_data(rows@[j]@)),
        decreases rows@.len() - k,
    {
        match intern_lite_from_row(&rows[k]) {
            Ok(x) => {
                list.push(x);
            },
            Err(e) => {
                assert(row_fault(row_data(rows@[k as int]@), intern_lite_shape(), e@));
                return Err(e);
            },
        }
        k = k + 1;
    }
    Ok(list)
}

/// Whether `files` holds the attachment pair of a row of the files query:
/// each text and each payload that its column holds, and nothing where the
/// column is missing or holds a value of another storage class.
pub open spec fn intern_files_reads(files: InternFiles, row: Seq<SqlData>) -> bool {
    &&& text_view(files.cv_name) == lenient_text(row, 0)
    &&& text_view(files.cv_mime) == lenient_text(row, 1)
    &&& blob_view(files.cv_blob) == lenient_blob(row, 2)
    &&& text_view(files.photo_name) == lenient_text(row, 3)
    &&& text_view(files.photo_mime) == lenient_text(row, 4)
    &&& blob_view(files.photo_blob) == lenient_blob(row, 5)
    &&& text_view(files.cv_path) == lenient_text(row, 6)
    &&& text_view(files.photo_path) == lenient_text(row, 7)
}

/// Reads the attachment pair from a row of the files query. No row is
/// refused: a column that cannot be read leaves its field absent.
pub fn intern_files_from_row(row: &Vec<SqlValue>) -> (files: InternFiles)
    ensures
        intern_files_reads(files, row_data(row@)),
{
    InternFiles {
        cv_name: lenient_text_at(row, 0),
        cv_mime: lenient_text_at(row, 1),
        cv_blob: lenient_blob_at(row, 2),
        photo_name: lenient_text_at(row, 3),
        photo_mime: lenient_text_at(row, 4),
        photo_blob: lenient_blob_at(row, 5),
        cv_path: lenient_text_at(row, 6),
        photo_path: lenient_text_at(row, 7),
    }
}

/// Reads the attachment pair of a person from the rows of the files query:
/// the first row is read, and a query without rows, which means that no
/// person has the identity asked for, is reported as such.
pub fn intern_files_from_rows(rows: &Vec<Vec<SqlValue>>) -> (r: Result<InternFiles, RowError>)
    ensures
        match r {
            Ok(files) => rows@.len() > 0 && intern_files_reads(files, row_data(rows@[0]@)),
            Err(e) => rows@.len() == 0 && e@ == Fault::NoRows,
        },
{
    if rows.len() == 0 {
        Err(RowError::NoRows)
    } else {
        Ok(intern_files_from_row(&rows[0]))
    }
}

} // verus!
