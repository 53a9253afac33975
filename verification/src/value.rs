//! The values that travel between the library and the store: what a statement
//! binds, and what a result row holds.

use vstd::prelude::*;

verus! {

/// The mathematical content of a bound parameter or of a column value.
pub enum SqlData {
    Null,
    Integer(i64),
    /// A floating-point column, kept as the bits of its IEEE 754 encoding.
    Real(u64),
    Text(Seq<char>),
    Blob(Seq<u8>),
}

/// A value bound to a placeholder of a statement.
#[derive(Clone, Debug, PartialEq, Eq)]
pub enum SqlParam {
    Null,
    Integer(i64),
    Text(String),
    Blob(Vec<u8>),
}

impl View for SqlParam {
    type V = SqlData;

    open spec fn view(&self) -> SqlData {
        match self {
            SqlParam::Null => SqlData::Null,
            SqlParam::Integer(i) => SqlData::Integer(*i),
            SqlParam::Text(s) => SqlData::Text(s@),
            SqlParam::Blob(b) => SqlData::Blob(b@),
        }
    }
}

/// A value read from one column of a result row.
#[derive(Clone, Debug, PartialEq, Eq)]
pub enum SqlValue {
    Null,
    Integer(i64),
    /// A floating-point column, kept as the bits of its IEEE 754 encoding.
    Real(u64),
    Text(String),
    Blob(Vec<u8>),
}

impl View for SqlValue {
    type V = SqlData;

    open spec fn view(&self) -> SqlData {
        match self {
            SqlValue::Null => SqlData::Null,
            SqlValue::Integer(i) => SqlData::Integer(*i),
            SqlValue::Real(bits) => SqlData::Real(*bits),
            SqlValue::Text(s) => SqlData::Text(s@),
            SqlValue::Blob(b) => SqlData::Blob(b@),
        }
    }
}

/// The contents of a list of parameters, one by one.
pub open spec fn params_data(params: Seq<SqlParam>) -> Seq<SqlData> {
    params.map_values(|p: SqlParam| p@)
}

/// The contents of a result row, column by column.
pub open spec fn row_data(row: Seq<SqlValue>) -> Seq<SqlData> {
    row.map_values(|v: SqlValue| v@)
}

/// What an optional text binds as: the text, or NULL when it is absent.
pub open spec fn text_or_null(text: Option<String>) -> SqlData {
    match text {
        Some(t) => SqlData::Text(t@),
        None => SqlData::Null,
    }
}

/// What an optional byte payload binds as: the bytes, or NULL when absent.
pub open spec fn blob_or_null(bytes: Option<Vec<u8>>) -> SqlData {
    match bytes {
        Some(b) => SqlData::Blob(b@),
        None => SqlData::Null,
    }
}

/// A copy of `bytes`.
pub fn copy_bytes(bytes: &Vec<u8>) -> (out: Vec<u8>)
    ensures
        out@ == bytes@,
{
    let mut out: Vec<u8> = Vec::new();
    let mut i: usize = 0;
    while i < bytes.len()
        invariant
            i <= bytes@.len(),
            out@ == bytes@.subrange(0, i as int),
        decreases bytes@.len() - i,
    {
        out.push(bytes[i]);
        assert(out@ =~= bytes@.subrange(0, i + 1));
        i = i + 1;
    }
    assert(out@ =~= bytes@);
    out
}

/// Binds a text.
pub fn text_param(text: &String) -> (p: SqlParam)
    ensures
        p@ == SqlData::Text(text@),
{
    SqlParam::Text(text.clone())
}

/// Binds an optional text, NULL when it is absent.
pub fn optional_text_param(text: &Option<String>) -> (p: SqlParam)
    ensures
        p@ == text_or_null(*text),
{
    match text {
        Some(t) => SqlParam::Text(t.clone()),
        None => SqlParam::Null,
    }
}

/// Binds an optional byte payload, NULL when it is absent.
pub fn optional_blob_param(bytes: &Option<Vec<u8>>) -> (p: SqlParam)
    ensures
        p@ == blob_or_null(*bytes),
{
    match bytes {
        Some(b) => SqlParam::Blob(copy_bytes(b)),
        None => SqlParam::Null,
    }
}

} // verus!
