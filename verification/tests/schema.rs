use intern_tracker::schema::{
    check_foreign_keys, foreign_keys_outcome, FOREIGN_KEYS_CHECK_SQL, FOREIGN_KEYS_OFF_MESSAGE,
};
use intern_tracker::schema::{
    add_column_failure, add_column_sql, add_column_statement, attachment_columns, column_present,
    table_columns, table_info_sql, ColumnDef, MigrationKind, ADD_FILE_COLUMNS_SQL,
    CREATE_ASSIGNMENTS_SQL, CREATE_EVALUATIONS_SQL, CREATE_INTERNS_SQL, FOREIGN_KEYS_SQL,
    INDEX_INTERNS_SQL,
};
use intern_tracker::{add_column_if_missing, get_migrations, open_conn, SqlValue, Store};
use rusqlite::Connection;

fn names(list: &[&str]) -> Vec<String> {
    list.iter().map(|s| s.to_string()).collect()
}

#[test]
fn migrations_count_from_one_upward() {
    let list = get_migrations();
    assert_eq!(list.len(), 5);
    for (i, m) in list.iter().enumerate() {
        assert_eq!(m.version, i as i64 + 1);
        assert_eq!(m.kind, MigrationKind::Up);
    }
    let descriptions: Vec<&str> = list.iter().map(|m| m.description).collect();
    assert_eq!(
        descriptions,
        vec![
            "create_intern_table",
            "add_basic_indexes",
            "create_assignments_table",
            "create_evaluations_table",
            "add_blob_columns_for_files",
        ]
    );
    assert_eq!(list[0].sql, CREATE_INTERNS_SQL);
    assert_eq!(list[1].sql, INDEX_INTERNS_SQL);
    assert_eq!(list[2].sql, CREATE_ASSIGNMENTS_SQL);
    assert_eq!(list[3].sql, CREATE_EVALUATIONS_SQL);
    assert_eq!(list[4].sql, ADD_FILE_COLUMNS_SQL);
}

#[test]
fn migrations_build_the_reconciled_schema() {
    let raw = Connection::open_in_memory().unwrap();
    for m in get_migrations() {
        raw.execute_batch(m.sql).unwrap();
    }
    let mut by_migrations = Store::over(raw);
    let mut reconciled = open_conn(":memory:").unwrap();
    for table in ["interns", "assignments", "evaluations"] {
        assert_eq!(
            table_columns(&mut by_migrations, table).unwrap(),
            table_columns(&mut reconciled, table).unwrap()
        );
    }
    assert_eq!(table_columns(&mut reconciled, "assignments").unwrap().len(), 8);
    assert_eq!(table_columns(&mut reconciled, "evaluations").unwrap().len(), 5);
}

#[test]
fn schema_statements_only_add() {
    for sql in [
        FOREIGN_KEYS_SQL,
        CREATE_INTERNS_SQL,
        INDEX_INTERNS_SQL,
        CREATE_ASSIGNMENTS_SQL,
        CREATE_EVALUATIONS_SQL,
        ADD_FILE_COLUMNS_SQL,
    ] {
        let upper = sql.to_uppercase();
        assert!(!upper.contains("DROP "));
        assert!(!upper.contains("RENAME "));
        assert!(!upper.contains("DELETE FROM"));
    }
    assert!(INDEX_INTERNS_SQL.contains("interns(last_name, first_name)"));
    assert!(CREATE_EVALUATIONS_SQL.contains("CHECK(score BETWEEN 0 AND 100)"));
    assert!(CREATE_ASSIGNMENTS_SQL.contains("ON DELETE CASCADE"));
    assert!(CREATE_EVALUATIONS_SQL.contains("ON DELETE CASCADE"));
    assert_eq!(FOREIGN_KEYS_SQL, "PRAGMA foreign_keys = ON;");
}

#[test]
fn the_six_attachment_columns() {
    assert_eq!(
        attachment_columns(),
        vec![
            ColumnDef { name: "cv_name", sql_type: "TEXT" },
            ColumnDef { name: "cv_mime", sql_type: "TEXT" },
            ColumnDef { name: "cv_blob", sql_type: "BLOB" },
            ColumnDef { name: "photo_name", sql_type: "TEXT" },
            ColumnDef { name: "photo_mime", sql_type: "TEXT" },
            ColumnDef { name: "photo_blob", sql_type: "BLOB" },
        ]
    );
}

#[test]
fn schema_texts() {
    assert_eq!(table_info_sql("interns"), "PRAGMA table_info('interns')");
    assert_eq!(
        add_column_sql("interns", "cv_blob", "BLOB"),
        "ALTER TABLE interns ADD COLUMN cv_blob BLOB"
    );
    assert_eq!(
        add_column_failure("interns", "cv_blob", "duplicate column name: cv_blob"),
        "ALTER TABLE interns ADD COLUMN cv_blob failed: duplicate column name: cv_blob"
    );
}

#[test]
fn a_column_is_present_when_its_name_is_listed() {
    let columns = names(&["id", "first_name", "cv_name"]);
    assert!(column_present(&columns, "cv_name"));
    assert!(column_present(&columns, "id"));
    assert!(!column_present(&columns, "cv_mime"));
    assert!(!column_present(&columns, "CV_NAME"));
    assert!(!column_present(&columns, "cv"));
    assert!(!column_present(&Vec::new(), "id"));
}

#[test]
fn a_missing_column_gives_its_addition() {
    let columns = names(&["id", "cv_name"]);
    assert_eq!(add_column_statement(&columns, "interns", "cv_name", "TEXT"), None);
    let stmt = add_column_statement(&columns, "interns", "cv_mime", "TEXT").unwrap();
    assert_eq!(stmt.sql, "ALTER TABLE interns ADD COLUMN cv_mime TEXT");
    assert!(stmt.params.is_empty());
}

#[test]
fn adding_a_column_twice_adds_it_once() {
    let mut store = open_conn(":memory:").unwrap();
    let before = table_columns(&mut store, "assignments").unwrap();
    add_column_if_missing(&mut store, "assignments", "note", "TEXT").unwrap();
    add_column_if_missing(&mut store, "assignments", "note", "TEXT").unwrap();
    let mut expected = before.clone();
    expected.push("note".to_string());
    assert_eq!(table_columns(&mut store, "assignments").unwrap(), expected);
    add_column_if_missing(&mut store, "assignments", "status", "TEXT").unwrap();
    assert_eq!(table_columns(&mut store, "assignments").unwrap(), expected);
}

#[test]
fn a_failed_addition_names_table_and_column() {
    let mut store = open_conn(":memory:").unwrap();
    let err = add_column_if_missing(&mut store, "no_such_table", "x", "TEXT").unwrap_err();
    assert!(err.starts_with("ALTER TABLE no_such_table ADD COLUMN x failed: "));
    assert_eq!(table_columns(&mut store, "no_such_table"), Ok(Vec::new()));
}

#[test]
fn foreign_keys_must_be_reported_as_on() {
    let on = Ok(vec![vec![SqlValue::Integer(1)]]);
    assert_eq!(foreign_keys_outcome(&on), Ok(()));
    let off = Err(FOREIGN_KEYS_OFF_MESSAGE.to_string());
    assert_eq!(foreign_keys_outcome(&Ok(vec![vec![SqlValue::Integer(0)]])), off);
    assert_eq!(foreign_keys_outcome(&Ok(vec![vec![SqlValue::Integer(2)]])), off);
    assert_eq!(foreign_keys_outcome(&Ok(Vec::new())), off);
    assert_eq!(foreign_keys_outcome(&Ok(vec![vec![SqlValue::Null]])), off);
    assert_eq!(foreign_keys_outcome(&Ok(vec![vec![SqlValue::Text("1".to_string())]])), off);
    assert_eq!(
        foreign_keys_outcome(&Err("database is locked".to_string())),
        Err("database is locked".to_string())
    );
    assert_eq!(FOREIGN_KEYS_CHECK_SQL, "PRAGMA foreign_keys");
    assert_eq!(FOREIGN_KEYS_OFF_MESSAGE, "foreign key enforcement could not be switched on");
}

#[test]
fn the_store_is_asked_whether_foreign_keys_are_on() {
    let raw = Connection::open_in_memory().unwrap();
    let mut store = Store::over(raw);
    assert_eq!(
        check_foreign_keys(&mut store),
        Err("foreign key enforcement could not be switched on".to_string())
    );
    store.connection().execute_batch("PRAGMA foreign_keys = ON;").unwrap();
    assert_eq!(check_foreign_keys(&mut store), Ok(()));
}

#[test]
fn a_failed_batch_stops_the_reconciliation() {
    let raw = Connection::open_in_memory().unwrap();
    raw.execute_batch("CREATE TABLE assignments (id INTEGER);").unwrap();
    let mut store = Store::over(raw);
    assert!(intern_tracker::ensure_schema(&mut store).is_err());
    assert_eq!(table_columns(&mut store, "evaluations"), Ok(Vec::new()));
    assert_eq!(table_columns(&mut store, "interns").unwrap().len(), 12);
}
