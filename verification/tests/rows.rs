use intern_tracker::assignments::{assignment_from_row, assignments_from_rows};
use intern_tracker::evaluations::{evaluation_from_row, evaluations_from_rows};
use intern_tracker::persons::{
    intern_files_from_row, intern_files_from_rows, intern_lite_from_row, interns_from_rows,
};
use intern_tracker::rows::{
    check_row, count_from_rows, count_or_zero, integer_at, lenient_blob_at, lenient_text_at,
    storage_class, takes, text_at, Expect, FieldDef, RowError, StorageClass,
};
use intern_tracker::schema::column_names_from_rows;
use intern_tracker::store::{cell_read, collect_step, row_step};
use intern_tracker::SqlValue;

fn text(s: &str) -> SqlValue {
    SqlValue::Text(s.to_string())
}

fn person_row() -> Vec<SqlValue> {
    vec![
        SqlValue::Integer(7),
        text("Ayşe"),
        text("Çelik"),
        text("ODTÜ"),
        text("CENG"),
        text("2024-06-01"),
        SqlValue::Null,
        text("active"),
        text("555"),
        text("a@b.c"),
        text("cv.pdf"),
        SqlValue::Null,
    ]
}

#[test]
fn storage_classes() {
    assert_eq!(storage_class(&SqlValue::Null), StorageClass::Null);
    assert_eq!(storage_class(&SqlValue::Integer(1)), StorageClass::Integer);
    assert_eq!(storage_class(&SqlValue::Real(0)), StorageClass::Real);
    assert_eq!(storage_class(&text("")), StorageClass::Text);
    assert_eq!(storage_class(&SqlValue::Blob(vec![])), StorageClass::Blob);
}

#[test]
fn strict_readers_take_their_class_only() {
    let row = vec![
        SqlValue::Integer(5),
        text("x"),
        SqlValue::Null,
        SqlValue::Blob(vec![1]),
        SqlValue::Real(7),
    ];
    assert_eq!(integer_at(&row, 0, "c"), Ok(5));
    assert_eq!(text_at(&row, 1, "c"), Ok("x".to_string()));
    assert_eq!(
        integer_at(&row, 1, "c"),
        Err(RowError::WrongType { index: 1, column: "c", found: StorageClass::Text })
    );
    assert_eq!(
        integer_at(&row, 2, "c"),
        Err(RowError::WrongType { index: 2, column: "c", found: StorageClass::Null })
    );
    assert_eq!(
        text_at(&row, 0, "c"),
        Err(RowError::WrongType { index: 0, column: "c", found: StorageClass::Integer })
    );
    assert_eq!(
        text_at(&row, 3, "c"),
        Err(RowError::WrongType { index: 3, column: "c", found: StorageClass::Blob })
    );
    assert_eq!(
        integer_at(&row, 4, "c"),
        Err(RowError::WrongType { index: 4, column: "c", found: StorageClass::Real })
    );
    assert_eq!(integer_at(&row, 5, "c"), Err(RowError::NoColumn { index: 5 }));
    assert_eq!(text_at(&row, 9, "c"), Err(RowError::NoColumn { index: 9 }));
}

#[test]
fn lenient_readers_leave_the_field_absent() {
    let row = vec![text("x"), SqlValue::Blob(vec![1, 2]), SqlValue::Null, SqlValue::Integer(3)];
    assert_eq!(lenient_text_at(&row, 0), Some("x".to_string()));
    assert_eq!(lenient_text_at(&row, 1), None);
    assert_eq!(lenient_text_at(&row, 2), None);
    assert_eq!(lenient_text_at(&row, 3), None);
    assert_eq!(lenient_text_at(&row, 4), None);
    assert_eq!(lenient_blob_at(&row, 1), Some(vec![1, 2]));
    assert_eq!(lenient_blob_at(&row, 0), None);
    assert_eq!(lenient_blob_at(&row, 2), None);
    assert_eq!(lenient_blob_at(&row, 4), None);
}

#[test]
fn fault_messages() {
    assert_eq!(RowError::NoRows.message(), "Query returned no rows");
    assert_eq!(RowError::NoColumn { index: 12 }.message(), "Invalid column index: 12");
    assert_eq!(
        RowError::WrongType { index: 1, column: "first_name", found: StorageClass::Null }
            .message(),
        "Invalid column type Null at index: 1, name: first_name"
    );
    assert_eq!(
        RowError::WrongType { index: 0, column: "id", found: StorageClass::Text }.message(),
        "Invalid column type Text at index: 0, name: id"
    );
    assert_eq!(
        RowError::WrongType { index: 3, column: "score", found: StorageClass::Real }.message(),
        "Invalid column type Real at index: 3, name: score"
    );
    assert_eq!(
        RowError::WrongType { index: 10, column: "x", found: StorageClass::Blob }.message(),
        "Invalid column type Blob at index: 10, name: x"
    );
    assert_eq!(
        RowError::WrongType { index: 2, column: "x", found: StorageClass::Integer }.message(),
        "Invalid column type Integer at index: 2, name: x"
    );
}

#[test]
fn a_listed_person_is_read_field_by_field() {
    let p = intern_lite_from_row(&person_row()).unwrap();
    assert_eq!(p.id, Some(7));
    assert_eq!(p.first_name, "Ayşe");
    assert_eq!(p.last_name, "Çelik");
    assert_eq!(p.school, "ODTÜ");
    assert_eq!(p.department, "CENG");
    assert_eq!(p.start_date, "2024-06-01");
    assert_eq!(p.end_date, None);
    assert_eq!(p.status, "active");
    assert_eq!(p.contact, "555");
    assert_eq!(p.email, "a@b.c");
    assert_eq!(p.cv_name, Some("cv.pdf".to_string()));
    assert_eq!(p.photo_name, None);
}

#[test]
fn a_listed_person_reports_its_first_fault() {
    let mut row = person_row();
    row[4] = SqlValue::Null;
    row[8] = SqlValue::Integer(1);
    assert_eq!(
        intern_lite_from_row(&row),
        Err(RowError::WrongType { index: 4, column: "department", found: StorageClass::Null })
    );
    let mut row = person_row();
    row[0] = text("seven");
    assert_eq!(
        intern_lite_from_row(&row),
        Err(RowError::WrongType { index: 0, column: "id", found: StorageClass::Text })
    );
    let mut row = person_row();
    row.truncate(11);
    assert_eq!(intern_lite_from_row(&row), Err(RowError::NoColumn { index: 11 }));
    assert_eq!(intern_lite_from_row(&Vec::new()), Err(RowError::NoColumn { index: 0 }));
}

#[test]
fn a_listed_person_may_lack_its_identity() {
    let mut row = person_row();
    row[0] = SqlValue::Null;
    assert_eq!(intern_lite_from_row(&row).unwrap().id, None);
}

#[test]
fn persons_are_read_in_the_order_of_the_rows() {
    let mut second = person_row();
    second[0] = SqlValue::Integer(8);
    second[1] = text("Bora");
    let list = interns_from_rows(&vec![person_row(), second.clone()]).unwrap();
    assert_eq!(list.len(), 2);
    assert_eq!(list[0].id, Some(7));
    assert_eq!(list[1].id, Some(8));
    assert_eq!(list[1].first_name, "Bora");
    assert_eq!(interns_from_rows(&Vec::new()), Ok(Vec::new()));

    let mut bad = person_row();
    bad[2] = SqlValue::Blob(vec![]);
    let mut worse = person_row();
    worse[1] = SqlValue::Null;
    assert_eq!(
        interns_from_rows(&vec![person_row(), bad, worse, second]),
        Err(RowError::WrongType { index: 2, column: "last_name", found: StorageClass::Blob })
    );
}

#[test]
fn files_are_read_leniently() {
    let row = vec![
        text("cv.pdf"),
        SqlValue::Null,
        SqlValue::Blob(vec![1, 2, 3]),
        SqlValue::Integer(4),
        text("image/png"),
        text("not a blob"),
        text("/d/cv.pdf"),
    ];
    let files = intern_files_from_row(&row);
    assert_eq!(files.cv_name, Some("cv.pdf".to_string()));
    assert_eq!(files.cv_mime, None);
    assert_eq!(files.cv_blob, Some(vec![1, 2, 3]));
    assert_eq!(files.photo_name, None);
    assert_eq!(files.photo_mime, Some("image/png".to_string()));
    assert_eq!(files.photo_blob, None);
    assert_eq!(files.cv_path, Some("/d/cv.pdf".to_string()));
    assert_eq!(files.photo_path, None);
    assert_eq!(intern_files_from_rows(&vec![row.clone(), Vec::new()]), Ok(files));
    assert_eq!(intern_files_from_rows(&Vec::new()), Err(RowError::NoRows));
}

#[test]
fn an_assignment_is_read_field_by_field() {
    let row = vec![
        SqlValue::Integer(3),
        SqlValue::Integer(7),
        text("web"),
        text("page"),
        text("2024-07-01"),
        text("open"),
        SqlValue::Null,
        text("2024-06-01 10:00:00"),
    ];
    let a = assignment_from_row(&row).unwrap();
    assert_eq!(a.id, Some(3));
    assert_eq!(a.intern_id, 7);
    assert_eq!(a.project_type, "web");
    assert_eq!(a.task_description, "page");
    assert_eq!(a.due_date, "2024-07-01");
    assert_eq!(a.status, "open");
    assert_eq!(a.file_path, None);
    assert_eq!(a.created_at, Some("2024-06-01 10:00:00".to_string()));

    let mut bad = row.clone();
    bad[1] = SqlValue::Null;
    assert_eq!(
        assignment_from_row(&bad),
        Err(RowError::WrongType { index: 1, column: "intern_id", found: StorageClass::Null })
    );
    assert_eq!(
        assignments_from_rows(&vec![row.clone(), bad]),
        Err(RowError::WrongType { index: 1, column: "intern_id", found: StorageClass::Null })
    );
    assert_eq!(assignments_from_rows(&vec![row.clone(), row]).unwrap().len(), 2);
}

#[test]
fn an_evaluation_is_read_field_by_field() {
    let row = vec![
        SqlValue::Integer(1),
        SqlValue::Integer(7),
        text("weekly"),
        SqlValue::Integer(85),
        text("2024-06-01 10:00:00"),
    ];
    let e = evaluation_from_row(&row).unwrap();
    assert_eq!(e.id, Some(1));
    assert_eq!(e.intern_id, 7);
    assert_eq!(e.label, "weekly");
    assert_eq!(e.score, 85);
    assert_eq!(e.created_at, Some("2024-06-01 10:00:00".to_string()));

    let mut bad = row.clone();
    bad[3] = SqlValue::Real(0x4055400000000000);
    assert_eq!(
        evaluation_from_row(&bad),
        Err(RowError::WrongType { index: 3, column: "score", found: StorageClass::Real })
    );
    assert_eq!(
        evaluations_from_rows(&vec![bad, row.clone()]),
        Err(RowError::WrongType { index: 3, column: "score", found: StorageClass::Real })
    );
    assert_eq!(evaluations_from_rows(&vec![row]).unwrap().len(), 1);
}

#[test]
fn counts_are_read_from_the_first_row() {
    assert_eq!(count_from_rows(&vec![vec![SqlValue::Integer(3)]]), Ok(3));
    assert_eq!(count_from_rows(&Vec::new()), Err(RowError::NoRows));
    assert_eq!(count_from_rows(&vec![Vec::new()]), Err(RowError::NoColumn { index: 0 }));
    assert_eq!(
        count_from_rows(&vec![vec![SqlValue::Null]]),
        Err(RowError::WrongType { index: 0, column: "COUNT(*)", found: StorageClass::Null })
    );
}

#[test]
fn a_count_that_cannot_be_had_is_zero() {
    assert_eq!(count_or_zero(&Ok(vec![vec![SqlValue::Integer(12)]])), 12);
    assert_eq!(count_or_zero(&Ok(Vec::new())), 0);
    assert_eq!(count_or_zero(&Ok(vec![vec![text("12")]])), 0);
    assert_eq!(count_or_zero(&Err("no such table: interns".to_string())), 0);
}

#[test]
fn column_names_stand_second_in_the_listing() {
    let rows = vec![
        vec![SqlValue::Integer(0), text("id"), text("INTEGER")],
        vec![SqlValue::Integer(1), text("first_name"), text("TEXT")],
    ];
    assert_eq!(column_names_from_rows(&rows), Ok(vec!["id".to_string(), "first_name".to_string()]));
    assert_eq!(column_names_from_rows(&Vec::new()), Ok(Vec::new()));
    let bad = vec![
        vec![SqlValue::Integer(0), text("id")],
        vec![SqlValue::Integer(1), SqlValue::Null],
        vec![SqlValue::Integer(2)],
    ];
    assert_eq!(
        column_names_from_rows(&bad),
        Err(RowError::WrongType { index: 1, column: "name", found: StorageClass::Null })
    );
    assert_eq!(
        column_names_from_rows(&vec![vec![SqlValue::Integer(2)]]),
        Err(RowError::NoColumn { index: 1 })
    );
}

#[test]
fn a_field_takes_its_class_and_an_optional_one_null_too() {
    let values = [
        SqlValue::Null,
        SqlValue::Integer(1),
        SqlValue::Real(0),
        text("x"),
        SqlValue::Blob(vec![1]),
    ];
    let taken = |expect: Expect| -> Vec<bool> { values.iter().map(|v| takes(expect, v)).collect() };
    assert_eq!(taken(Expect::Integer), vec![false, true, false, false, false]);
    assert_eq!(taken(Expect::OptionalInteger), vec![true, true, false, false, false]);
    assert_eq!(taken(Expect::Text), vec![false, false, false, true, false]);
    assert_eq!(taken(Expect::OptionalText), vec![true, false, false, true, false]);
}

#[test]
fn a_row_is_held_against_its_fields() {
    let fields = vec![
        FieldDef { column: "id", expect: Expect::OptionalInteger },
        FieldDef { column: "name", expect: Expect::Text },
        FieldDef { column: "note", expect: Expect::OptionalText },
    ];
    assert_eq!(check_row(&vec![SqlValue::Null, text("a"), SqlValue::Null], &fields), Ok(()));
    assert_eq!(
        check_row(&vec![SqlValue::Integer(1), text("a"), text("b"), text("more")], &fields),
        Ok(())
    );
    assert_eq!(
        check_row(&vec![text("1"), SqlValue::Null, SqlValue::Integer(3)], &fields),
        Err(RowError::WrongType { index: 0, column: "id", found: StorageClass::Text })
    );
    assert_eq!(
        check_row(&vec![SqlValue::Integer(1), text("a"), SqlValue::Blob(vec![])], &fields),
        Err(RowError::WrongType { index: 2, column: "note", found: StorageClass::Blob })
    );
    assert_eq!(
        check_row(&vec![SqlValue::Integer(1), text("a")], &fields),
        Err(RowError::NoColumn { index: 2 })
    );
    assert_eq!(check_row(&Vec::new(), &Vec::new()), Ok(()));
}

#[test]
fn a_cell_that_was_read_is_kept() {
    for lenient in [false, true] {
        assert_eq!(cell_read(Ok(text("x")), lenient), Ok(text("x")));
        assert_eq!(cell_read(Ok(SqlValue::Null), lenient), Ok(SqlValue::Null));
        assert_eq!(cell_read(Ok(SqlValue::Blob(vec![1])), lenient), Ok(SqlValue::Blob(vec![1])));
    }
}

#[test]
fn a_cell_that_cannot_be_read_is_null_or_the_error() {
    let failed = || Err("invalid utf-8 sequence at index 0".to_string());
    assert_eq!(cell_read(failed(), true), Ok(SqlValue::Null));
    assert_eq!(cell_read(failed(), false), failed());
}

#[test]
fn a_cell_is_added_to_its_row_or_ends_it() {
    let mut values = vec![SqlValue::Integer(1)];
    assert_eq!(row_step(&mut values, Ok(text("a"))), None);
    assert_eq!(values, vec![SqlValue::Integer(1), text("a")]);
    assert_eq!(row_step(&mut values, Err("broken".to_string())), Some("broken".to_string()));
    assert_eq!(values, vec![SqlValue::Integer(1), text("a")]);
}

#[test]
fn a_step_adds_its_row_or_ends_the_collecting() {
    let mut out = vec![vec![SqlValue::Integer(1)]];
    assert_eq!(collect_step(&mut out, Ok(Some(vec![SqlValue::Integer(2)]))), None);
    assert_eq!(collect_step(&mut out, Ok(Some(vec![SqlValue::Integer(3)]))), None);
    let three =
        vec![vec![SqlValue::Integer(1)], vec![SqlValue::Integer(2)], vec![SqlValue::Integer(3)]];
    assert_eq!(out, three);
    assert_eq!(
        collect_step(&mut out, Err("disk I/O error".to_string())),
        Some(Err("disk I/O error".to_string()))
    );
    assert_eq!(out, three);
    assert_eq!(collect_step(&mut out, Ok(None)), Some(Ok(())));
    assert_eq!(out, three);
}
