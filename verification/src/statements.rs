//! Statements as the store receives them: a text with numbered placeholders
//! and the values bound to them, rendered from a list of column writes.

use vstd::prelude::*;
use crate::text::{decimal_text, push_unsigned};
use crate::value::{copy_bytes, params_data, SqlData, SqlParam};

verus! {

/// One column of a row together with the value to store in it.
#[derive(Clone, Debug, PartialEq, Eq)]
pub struct ColumnWrite {
    pub column: &'static str,
    pub value: SqlParam,
}

/// A statement ready to run: its text and the values for its placeholders,
/// the first value for `?1`, the second for `?2`, and so on.
#[derive(Clone, Debug, PartialEq, Eq)]
pub struct SqlStatement {
    pub sql: String,
    pub params: Vec<SqlParam>,
}

/// The content of a statement: its text and the values bound to its
/// placeholders, in order.
pub struct StatementData {
    pub sql: Seq<char>,
    pub values: Seq<SqlData>,
}

impl View for SqlStatement {
    type V = StatementData;

    open spec fn view(&self) -> StatementData {
        StatementData { sql: self.sql@, values: params_data(self.params@) }
    }
}

/// A column and the value written to it.
pub type Write = (Seq<char>, SqlData);

/// The writes of a list, each as its column and its value.
pub open spec fn write_pairs(writes: Seq<ColumnWrite>) -> Seq<Write> {
    writes.map_values(|w: ColumnWrite| (w.column@, w.value@))
}

/// The columns of a list of writes, in order.
pub open spec fn pair_columns(pairs: Seq<Write>) -> Seq<Seq<char>> {
    pairs.map_values(|p: Write| p.0)
}

/// The values of a list of writes, in order.
pub open spec fn pair_values(pairs: Seq<Write>) -> Seq<SqlData> {
    pairs.map_values(|p: Write| p.1)
}

/// The placeholder with the given number: a question mark and the number.
pub open spec fn placeholder(index: int) -> Seq<char> {
    seq!['?'] + decimal_text(index)
}

/// `column = ?index`.
pub open spec fn set_item(column: Seq<char>, index: int) -> Seq<char> {
    column + " = "@ + placeholder(index)
}

/// The first `n` columns as the list after `SET`: each column assigned the
/// placeholder of its position, counted from one, separated by `, `.
pub open spec fn set_list(columns: Seq<Seq<char>>, n: int) -> Seq<char>
    decreases n,
{
    if n <= 0 {
        Seq::<char>::empty()
    } else if n == 1 {
        set_item(columns[0], 1)
    } else {
        set_list(columns, n - 1) + ", "@ + set_item(columns[n - 1], n)
    }
}

/// The first `n` columns separated by `, `.
pub open spec fn name_list(columns: Seq<Seq<char>>, n: int) -> Seq<char>
    decreases n,
{
    if n <= 0 {
        Seq::<char>::empty()
    } else if n == 1 {
        columns[0]
    } else {
        name_list(columns, n - 1) + ", "@ + columns[n - 1]
    }
}

/// The placeholders `?1` to `?n` separated by `, `.
pub open spec fn placeholder_list(n: int) -> Seq<char>
    decreases n,
{
    if n <= 0 {
        Seq::<char>::empty()
    } else if n == 1 {
        placeholder(1)
    } else {
        placeholder_list(n - 1) + ", "@ + placeholder(n)
    }
}

/// `UPDATE table SET c1 = ?1, .., cn = ?n WHERE id = ?n+1`.
pub open spec fn update_text(table: Seq<char>, columns: Seq<Seq<char>>) -> Seq<char> {
    "UPDATE "@ + table + " SET "@ + set_list(columns, columns.len() as int) + " WHERE id = "@
        + placeholder(columns.len() as int + 1)
}

/// `INSERT INTO table (c1, .., cn) VALUES (?1, .., ?n)`.
pub open spec fn insert_text(table: Seq<char>, columns: Seq<Seq<char>>) -> Seq<char> {
    "INSERT INTO "@ + table + " ("@ + name_list(columns, columns.len() as int) + ") VALUES ("@
        + placeholder_list(columns.len() as int) + ")"@
}

/// `DELETE FROM table WHERE id = ?1`.
pub open spec fn delete_text(table: Seq<char>) -> Seq<char> {
    "DELETE FROM "@ + table + " WHERE id = "@ + placeholder(1)
}

/// The update of one row of `table`, found by its identity: the text
/// assigns each written column the placeholder of its position and finds the
/// row by the placeholder after the last one; the values are those of the
/// writes, in order, followed by the identity.
pub open spec fn update_of(table: Seq<char>, writes: Seq<Write>, id: i64) -> StatementData {
    StatementData {
        sql: update_text(table, pair_columns(writes)),
        values: pair_values(writes).push(SqlData::Integer(id)),
    }
}

/// The insertion of one row into `table`: the text names the written
/// columns and gives each the placeholder of its position; the values are
/// those of the writes, in order.
pub open spec fn insert_of(table: Seq<char>, writes: Seq<Write>) -> StatementData {
    StatementData { sql: insert_text(table, pair_columns(writes)), values: pair_values(writes) }
}

/// The deletion of the row of `table` with the given identity.
pub open spec fn delete_of(table: Seq<char>, id: i64) -> StatementData {
    StatementData { sql: delete_text(table), values: seq![SqlData::Integer(id)] }
}

/// A copy of a bound value.
pub fn copy_param(p: &SqlParam) -> (out: SqlParam)
    ensures
        out@ == p@,
{
    match p {
        SqlParam::Null => SqlParam::Null,
        SqlParam::Integer(i) => SqlParam::Integer(*i),
        SqlParam::Text(s) => SqlParam::Text(s.clone()),
        SqlParam::Blob(b) => SqlParam::Blob(copy_bytes(b)),
    }
}

fn push_placeholder(out: &mut String, index: u128)
    ensures
        final(out)@ == old(out)@ + placeholder(index as int),
{
    let ghost start = out@;
    out.push('?');
    push_unsigned(out, index);
    assert(out@ =~= start + placeholder(index as int));
}

fn copy_values(writes: &Vec<ColumnWrite>) -> (params: Vec<SqlParam>)
    ensures
        params_data(params@) == pair_values(write_pairs(writes@)),
{
    let mut params: Vec<SqlParam> = Vec::new();
    let mut i: usize = 0;
    while i < writes.len()
        invariant
            i <= writes@.len(),
            params@.len() == i,
            forall|k: int| 0 <= k < i ==> (#[trigger] params@[k])@ == writes@[k].value@,
        decreases writes@.len() - i,
    {
        params.push(copy_param(&writes[i].value));
        i = i + 1;
    }
    assert(params_data(params@) =~= pair_values(write_pairs(writes@)));
    params
}

/// Renders the update of one row, found by its identity, from the columns to
/// write.
pub fn render_update(table: &str, writes: &Vec<ColumnWrite>, id: i64) -> (stmt: SqlStatement)
    ensures
        stmt@ == update_of(table@, write_pairs(writes@), id),
{
    let ghost columns = pair_columns(write_pairs(writes@));
    let mut sql = String::new();
    sql.append("UPDATE ");
    sql.append(table);
    sql.append(" SET ");
    let ghost head = sql@;
    let mut i: usize = 0;
    while i < writes.len()
        invariant
            i <= writes@.len(),
            columns == pair_columns(write_pairs(writes@)),
            sql@ == head + set_list(columns, i as int),
        decreases writes@.len() - i,
    {
        let ghost before = sql@;
        if i > 0 {
            sql.append(", ");
        }
        sql.append(writes[i].column);
        sql.append(" = ");
        push_placeholder(&mut sql, i as u128 + 1);
        proof {
            assert(columns[i as int] == writes@[i as int].column@);
            if i == 0 {
                assert(sql@ =~= head + set_list(columns, 1));
            } else {
                assert(sql@ =~= head + (set_list(columns, i as int) + ", "@ + set_item(
                    columns[i as int],
                    i + 1,
                )));
            }
        }
        i = i + 1;
    }
    sql.append(" WHERE id = ");
    push_placeholder(&mut sql, writes.len() as u128 + 1);
    assert(sql@ =~= update_text(table@, columns));
    let mut params = copy_values(writes);
    let ghost values = params_data(params@);
    params.push(SqlParam::Integer(id));
    assert(params_data(params@) =~= values.push(SqlData::Integer(id)));
    SqlStatement { sql, params }
}

/// Renders the insertion of one row from the columns to write.
pub fn render_insert(table: &str, writes: &Vec<ColumnWrite>) -> (stmt: SqlStatement)
    ensures
        stmt@ == insert_of(table@, write_pairs(writes@)),
{
    let ghost columns = pair_columns(write_pairs(writes@));
    let mut sql = String::new();
    sql.append("INSERT INTO ");
    sql.append(table);
    sql.append(" (");
    let ghost head = sql@;
    let mut i: usize = 0;
    while i < writes.len()
        invariant
            i <= writes@.len(),
            columns == pair_columns(write_pairs(writes@)),
            sql@ == head + name_list(columns, i as int),
        decreases writes@.len() - i,
    {
        if i > 0 {
            sql.append(", ");
        }
        sql.append(writes[i].column);
        proof {
            assert(columns[i as int] == writes@[i as int].column@);
            if i == 0 {
                assert(sql@ =~= head + name_list(columns, 1));
            } else {
                assert(sql@ =~= head + (name_list(columns, i as int) + ", "@ + columns[i as int]));
            }
        }
        i = i + 1;
    }
    sql.append(") VALUES (");
    let ghost middle = sql@;
    let mut k: usize = 0;
    while k < writes.len()
        invariant
            k <= writes@.len(),
            sql@ == middle + placeholder_list(k as int),
        decreases writes@.len() - k,
    {
        if k > 0 {
            sql.append(", ");
        }
        push_placeholder(&mut sql, k as u128 + 1);
        proof {
            if k == 0 {
                assert(sql@ =~= middle + placeholder_list(1));
            } else {
                assert(sql@ =~= middle + (placeholder_list(k as int) + ", "@ + placeholder(
                    k + 1,
                )));
            }
        }
        k = k + 1;
    }
    sql.append(")");
    assert(sql@ =~= insert_text(table@, columns));
    let params = copy_values(writes);
    SqlStatement { sql, params }
}

/// Renders the deletion of the row with the given identity.
pub fn render_delete(table: &str, id: i64) -> (stmt: SqlStatement)
    ensures
        stmt@ == delete_of(table@, id),
{
    let mut sql = String::new();
    sql.append("DELETE FROM ");
    sql.append(table);
    sql.append(" WHERE id = ");
    push_placeholder(&mut sql, 1);
    assert(sql@ =~= delete_text(table@));
    let mut params: Vec<SqlParam> = Vec::new();
    params.push(SqlParam::Integer(id));
    assert(params_data(params@) =~= seq![SqlData::Integer(id)]);
    SqlStatement { sql, params }
}

} // verus!
