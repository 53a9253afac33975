//! Reading result rows: what each column of a record accepts, and the fault
//! that is reported for the first column that holds something else.

use vstd::prelude::*;
use crate::text::{decimal_text, push_unsigned};
use crate::value::{copy_bytes, row_data, SqlData, SqlValue};

verus! {

/// The storage class of a value.
#[derive(Clone, Copy, Debug, PartialEq, Eq)]
pub enum StorageClass {
    Null,
    Integer,
    Real,
    Text,
    Blob,
}

/// What a field of a record accepts from its column.
#[derive(Clone, Copy, Debug, PartialEq, Eq)]
pub enum Expect {
    /// An integer, and nothing else.
    Integer,
    /// An integer, or NULL for an absent value.
    OptionalInteger,
    /// A text, and nothing else.
    Text,
    /// A text, or NULL for an absent value.
    OptionalText,
}

/// The name of a column and what the field read from it accepts.
pub type Field = (Seq<char>, Expect);

/// What went wrong when a row was read.
#[derive(Clone, Debug, PartialEq, Eq)]
pub enum RowError {
    /// The query returned no row where one was expected.
    NoRows,
    /// The row is too short to have a column at `index`.
    NoColumn { index: usize },
    /// The column holds a value of a storage class its field does not accept.
    WrongType { index: usize, column: &'static str, found: StorageClass },
}

/// The content of a [`RowError`].
pub enum Fault {
    NoRows,
    NoColumn { index: int },
    WrongType { index: int, column: Seq<char>, found: StorageClass },
}

impl View for RowError {
    type V = Fault;

    open spec fn view(&self) -> Fault {
        match self {
            RowError::NoRows => Fault::NoRows,
            RowError::NoColumn { index } => Fault::NoColumn { index: *index as int },
            RowError::WrongType { index, column, found } => Fault::WrongType {
                index: *index as int,
                column: column@,
                found: *found,
            },
        }
    }
}

/// The storage class of a value.
pub open spec fn class_of(d: SqlData) -> StorageClass {
    match d {
        SqlData::Null => StorageClass::Null,
        SqlData::Integer(_) => StorageClass::Integer,
        SqlData::Real(_) => StorageClass::Real,
        SqlData::Text(_) => StorageClass::Text,
        SqlData::Blob(_) => StorageClass::Blob,
    }
}

/// The name of a storage class as fault messages write it.
pub open spec fn class_name(class: StorageClass) -> Seq<char> {
    match class {
        StorageClass::Null => "Null"@,
        StorageClass::Integer => "Integer"@,
        StorageClass::Real => "Real"@,
        StorageClass::Text => "Text"@,
        StorageClass::Blob => "Blob"@,
    }
}

/// Whether a field takes the value.
pub open spec fn accepts(expect: Expect, d: SqlData) -> bool {
    match expect {
        Expect::Integer => d is Integer,
        Expect::OptionalInteger => d is Integer || d is Null,
        Expect::Text => d is Text,
        Expect::OptionalText => d is Text || d is Null,
    }
}

/// Whether the row has a column at `index` whose value the field takes.
pub open spec fn cell_ok(row: Seq<SqlData>, expect: Expect, index: int) -> bool {
    0 <= index < row.len() && accepts(expect, row[index])
}

/// Whether the row has, for every field of the shape, a value it takes.
pub open spec fn fits(row: Seq<SqlData>, shape: Seq<Field>) -> bool {
    forall|i: int| 0 <= i < shape.len() ==> cell_ok(row, (#[trigger] shape[i]).1, i)
}

/// The fault of column `index`: the row is too short, or the column holds a
/// value of the wrong storage class.
pub open spec fn fault(row: Seq<SqlData>, index: int, column: Seq<char>) -> Fault {
    if index >= row.len() {
        Fault::NoColumn { index }
    } else {
        Fault::WrongType { index, column, found: class_of(row[index]) }
    }
}

/// Whether `index` is the first field of the shape that the row fails.
pub open spec fn is_first_fault(row: Seq<SqlData>, shape: Seq<Field>, index: int) -> bool {
    &&& 0 <= index < shape.len()
    &&& !cell_ok(row, shape[index].1, index)
    &&& forall|j: int| 0 <= j < index ==> cell_ok(row, (#[trigger] shape[j]).1, j)
}

/// Whether `e` is the fault of the first field of the shape that the row
/// fails.
pub open spec fn row_fault(row: Seq<SqlData>, shape: Seq<Field>, e: Fault) -> bool {
    exists|i: int| #[trigger] is_first_fault(row, shape, i) && e == fault(row, i, shape[i].0)
}

/// Whether `e` is the fault of the first row that does not fit the shape.
pub open spec fn rows_fault(rows: Seq<Vec<SqlValue>>, shape: Seq<Field>, e: Fault) -> bool {
    exists|k: int|
        0 <= k < rows.len() && #[trigger] row_fault(row_data(rows[k]@), shape, e) && forall|j: int|
            0 <= j < k ==> fits(row_data((#[trigger] rows[j])@), shape)
}

/// The integer a value holds; NULL and every other class give `None`.
pub open spec fn integer_of(d: SqlData) -> Option<i64> {
    match d {
        SqlData::Integer(i) => Some(i),
        _ => None,
    }
}

/// The text a value holds; NULL and every other class give `None`.
pub open spec fn text_of(d: SqlData) -> Option<Seq<char>> {
    match d {
        SqlData::Text(t) => Some(t),
        _ => None,
    }
}

/// The bytes a value holds; NULL and every other class give `None`.
pub open spec fn blob_of(d: SqlData) -> Option<Seq<u8>> {
    match d {
        SqlData::Blob(b) => Some(b),
        _ => None,
    }
}

/// The content of an optional text.
pub open spec fn text_view(text: Option<String>) -> Option<Seq<char>> {
    match text {
        Some(t) => Some(t@),
        None => None,
    }
}

/// The content of an optional byte payload.
pub open spec fn blob_view(bytes: Option<Vec<u8>>) -> Option<Seq<u8>> {
    match bytes {
        Some(b) => Some(b@),
        None => None,
    }
}

/// The storage class of a value read from a row.
pub fn storage_class(v: &SqlValue) -> (class: StorageClass)
    ensures
        class == class_of(v@),
{
    match v {
        SqlValue::Null => StorageClass::Null,
        SqlValue::Integer(_) => StorageClass::Integer,
        SqlValue::Real(_) => StorageClass::Real,
        SqlValue::Text(_) => StorageClass::Text,
        SqlValue::Blob(_) => StorageClass::Blob,
    }
}

fn fault_of(row: &Vec<SqlValue>, index: usize, column: &'static str) -> (e: RowError)
    ensures
        e@ == fault(row_data(row@), index as int, column@),
{
    if index >= row.len() {
        RowError::NoColumn { index }
    } else {
        RowError::WrongType { index, column, found: storage_class(&row[index]) }
    }
}

/// Reads a field that must be an integer.
pub fn integer_at(row: &Vec<SqlValue>, index: usize, column: &'static str) -> (r: Result<
    i64,
    RowError,
>)
    ensures
        match r {
            Ok(v) => cell_ok(row_data(row@), Expect::Integer, index as int) && Some(v)
                == integer_of(row_data(row@)[index as int]),
            Err(e) => !cell_ok(row_data(row@), Expect::Integer, index as int) && e@ == fault(
                row_data(row@),
                index as int,
                column@,
            ),
        },
{
    if index < row.len() {
        if let SqlValue::Integer(i) = &row[index] {
            return Ok(*i);
        }
    }
    Err(fault_of(row, index, column))
}

/// Reads a field that must be a text.
pub fn text_at(row: &Vec<SqlValue>, index: usize, column: &'static str) -> (r: Result<
    String,
    RowError,
>)
    ensures
        match r {
            Ok(v) => cell_ok(row_data(row@), Expect::Text, index as int) && Some(v@) == text_of(
                row_data(row@)[index as int],
            ),
            Err(e) => !cell_ok(row_data(row@), Expect::Text, index as int) && e@ == fault(
                row_data(row@),
                index as int,
                column@,
            ),
        },
{
    if index < row.len() {
        if let SqlValue::Text(t) = &row[index] {
            return Ok(t.clone());
        }
    }
    Err(fault_of(row, index, column))
}

/// A field of a record as a reader is given it: the name of its column and
/// what it accepts.
#[derive(Clone, Copy, Debug, PartialEq, Eq)]
pub struct FieldDef {
    pub column: &'static str,
    pub expect: Expect,
}

/// The fields of a list, each as the name of its column and what it
/// accepts.
pub open spec fn shape_of(fields: Seq<FieldDef>) -> Seq<Field> {
    fields.map_values(|f: FieldDef| (f.column@, f.expect))
}

/// Decides whether a field takes a value.
pub fn takes(expect: Expect, v: &SqlValue) -> (b: bool)
    ensures
        b == accepts(expect, v@),
{
    match expect {
        Expect::Integer => matches!(v, SqlValue::Integer(_)),
        Expect::OptionalInteger => matches!(v, SqlValue::Integer(_) | SqlValue::Null),
        Expect::Text => matches!(v, SqlValue::Text(_)),
        Expect::OptionalText => matches!(v, SqlValue::Text(_) | SqlValue::Null),
    }
}

/// Holds a row against the fields of a record: the row is taken when it has,
/// for every field, a value that the field accepts; otherwise the fault of
/// the first field that it fails is reported.
pub fn check_row(row: &Vec<SqlValue>, fields: &Vec<FieldDef>) -> (r: Result<(), RowError>)
    ensures
        match r {
            Ok(_) => fits(row_data(row@), shape_of(fields@)),
            Err(e) => row_fault(row_data(row@), shape_of(fields@), e@),
        },
{
    let ghost d = row_data(row@);
    let ghost shape = shape_of(fields@);
    let mut i: usize = 0;
    while i < fields.len()
        invariant
            i <= fields@.len(),
            d == row_data(row@),
            shape == shape_of(fields@),
            forall|j: int| 0 <= j < i ==> cell_ok(d, (#[trigger] shape[j]).1, j),
        decreases fields@.len() - i,
    {
        let field = &fields[i];
        assert(shape[i as int] == (field.column@, field.expect));
        if !(i < row.len() && takes(field.expect, &row[i])) {
            assert(is_first_fault(d, shape, i as int));
            return Err(fault_of(row, i, field.column));
        }
        i = i + 1;
    }
    Ok(())
}

/// The integer of a field that was found to hold one.
pub(crate) fn integer_in(row: &Vec<SqlValue>, index: usize) -> (v: i64)
    requires
        cell_ok(row_data(row@), Expect::Integer, index as int),
    ensures
        Some(v) == integer_of(row_data(row@)[index as int]),
{
    match &row[index] {
        SqlValue::Integer(i) => *i,
        _ => 0,
    }
}

/// The integer of a field that was found to hold one or to be absent.
pub(crate) fn optional_integer_in(row: &Vec<SqlValue>, index: usize) -> (v: Option<i64>)
    requires
        cell_ok(row_data(row@), Expect::OptionalInteger, index as int),
    ensures
        v == integer_of(row_data(row@)[index as int]),
{
    match &row[index] {
        SqlValue::Integer(i) => Some(*i),
        _ => None,
    }
}

/// The text of a field that was found to hold one.
pub(crate) fn text_in(row: &Vec<SqlValue>, index: usize) -> (v: String)
    requires
        cell_ok(row_data(row@), Expect::Text, index as int),
    ensures
        Some(v@) == text_of(row_data(row@)[index as int]),
{
    match &row[index] {
        SqlValue::Text(t) => t.clone(),
        _ => String::new(),
    }
}

/// The text of a field that was found to hold one or to be absent.
pub(crate) fn optional_text_in(row: &Vec<SqlValue>, index: usize) -> (v: Option<String>)
    requires
        cell_ok(row_data(row@), Expect::OptionalText, index as int),
    ensures
        text_view(v) == text_of(row_data(row@)[index as int]),
{
    match &row[index] {
        SqlValue::Text(t) => Some(t.clone()),
        _ => None,
    }
}

/// What a lenient read gives for a column: the text it holds, and nothing
/// for a missing column or a value of any other storage class.
pub open spec fn lenient_text(row: Seq<SqlData>, index: int) -> Option<Seq<char>> {
    if 0 <= index < row.len() {
        text_of(row[index])
    } else {
        None
    }
}

/// What a lenient read gives for a column: the bytes it holds, and nothing
/// for a missing column or a value of any other storage class.
pub open spec fn lenient_blob(row: Seq<SqlData>, index: int) -> Option<Seq<u8>> {
    if 0 <= index < row.len() {
        blob_of(row[index])
    } else {
        None
    }
}

/// Reads a text leniently: whatever is not a text is absent.
pub fn lenient_text_at(row: &Vec<SqlValue>, index: usize) -> (r: Option<String>)
    ensures
        text_view(r) == lenient_text(row_data(row@), index as int),
{
    if index < row.len() {
        if let SqlValue::Text(t) = &row[index] {
            return Some(t.clone());
        }
    }
    None
}

/// Reads a byte payload leniently: whatever is not a blob is absent.
pub fn lenient_blob_at(row: &Vec<SqlValue>, index: usize) -> (r: Option<Vec<u8>>)
    ensures
        blob_view(r) == lenient_blob(row_data(row@), index as int),
{
    if index < row.len() {
        if let SqlValue::Blob(b) = &row[index] {
            return Some(copy_bytes(b));
        }
    }
    None
}

/// The text that reports a fault: a missing row, a missing column by its
/// index, or a column of the wrong storage class by the class found, its
/// index and its name.
pub open spec fn fault_text(e: Fault) -> Seq<char> {
    match e {
        Fault::NoRows => "Query returned no rows"@,
        Fault::NoColumn { index } => "Invalid column index: "@ + decimal_text(index),
        Fault::WrongType { index, column, found } => "Invalid column type "@ + class_name(found)
            + " at index: "@ + decimal_text(index) + ", name: "@ + column,
    }
}

impl RowError {
    /// The text that reports this fault.
    pub fn message(&self) -> (s: String)
        ensures
            s@ == fault_text(self@),
    {
        match self {
            RowError::NoRows => "Query returned no rows".to_string(),
            RowError::NoColumn { index } => {
                let mut s = String::new();
                s.append("Invalid column index: ");
                push_unsigned(&mut s, *index as u128);
                assert(s@ =~= fault_text(self@));
                s
            },
            RowError::WrongType { index, column, found } => {
                let mut s = String::new();
                s.append("Invalid column type ");
                s.append(
                    match found {
                        StorageClass::Null => "Null",
                        StorageClass::Integer => "Integer",
                        StorageClass::Real => "Real",
                        StorageClass::Text => "Text",
                        StorageClass::Blob => "Blob",
                    },
                );
                s.append(" at index: ");
                push_unsigned(&mut s, *index as u128);
                s.append(", name: ");
                s.append(column);
                assert(s@ =~= fault_text(self@));
                s
            },
        }
    }
}

/// What the rows of a counting query give: the integer in the first column
/// of the first row.
pub open spec fn count_of(rows: Seq<Vec<SqlValue>>) -> Option<i64> {
    if rows.len() > 0 && row_data(rows[0]@).len() > 0 {
        integer_of(row_data(rows[0]@)[0])
    } else {
        None
    }
}

/// Reads the count from the rows of a counting query. A query without rows
/// and a first row that does not start with an integer are faults.
pub fn count_from_rows(rows: &Vec<Vec<SqlValue>>) -> (r: Result<i64, RowError>)
    ensures
        match r {
            Ok(n) => count_of(rows@) == Some(n),
            Err(e) => count_of(rows@) is None && e@ == (if rows@.len() == 0 {
                Fault::NoRows
            } else {
                fault(row_data(rows@[0]@), 0, "COUNT(*)"@)
            }),
        },
{
    if rows.len() == 0 {
        return Err(RowError::NoRows);
    }
    integer_at(&rows[0], 0, "COUNT(*)")
}

/// The count that a diagnostic reports: the count the query gave, and zero
/// where the query failed or its answer cannot be read.
pub open spec fn count_or_zero_of(answer: Result<Vec<Vec<SqlValue>>, String>) -> i64 {
    match answer {
        Ok(rows) => match count_of(rows@) {
            Some(n) => n,
            None => 0,
        },
        Err(_) => 0,
    }
}

/// Reads a count for a diagnostic, with zero for every failure.
pub fn count_or_zero(answer: &Result<Vec<Vec<SqlValue>>, String>) -> (n: i64)
    ensures
        n == count_or_zero_of(*answer),
{
    match answer {
        Ok(rows) => match count_from_rows(rows) {
            Ok(n) => n,
            Err(_) => 0,
        },
        Err(_) => 0,
    }
}

} // verus!
