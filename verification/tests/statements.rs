use intern_tracker::assignments::{delete_assignment_statement, insert_assignment_statement};
use intern_tracker::evaluations::{
    delete_evaluation_statement, insert_evaluation_statement, score_is_valid, EvaluationError,
};
use intern_tracker::persons::{
    delete_intern_statement, insert_intern_statement, intern_insert_writes,
    intern_update_writes, update_intern_statement,
};
use intern_tracker::statements::{render_delete, render_insert, render_update, ColumnWrite};
use intern_tracker::{Assignment, Evaluation, InternPayload, SqlParam};

fn text(s: &str) -> SqlParam {
    SqlParam::Text(s.to_string())
}

fn bare_payload() -> InternPayload {
    InternPayload {
        id: None,
        first_name: "Ayşe".to_string(),
        last_name: "Çelik".to_string(),
        school: "ODTÜ".to_string(),
        department: "CENG".to_string(),
        start_date: "2024-06-01".to_string(),
        end_date: None,
        status: "active".to_string(),
        contact: "555".to_string(),
        email: "ayse@example.com".to_string(),
        cv_path: None,
        photo_path: None,
        cv_name: None,
        cv_mime: None,
        cv_blob: None,
        photo_name: None,
        photo_mime: None,
        photo_blob: None,
    }
}

fn scalar_params(p: &InternPayload) -> Vec<SqlParam> {
    vec![
        text(&p.first_name),
        text(&p.last_name),
        text(&p.school),
        text(&p.department),
        text(&p.start_date),
        p.end_date.as_deref().map(text).unwrap_or(SqlParam::Null),
        text(&p.status),
        text(&p.contact),
        text(&p.email),
    ]
}

const UPDATE_SCALARS: &str = "UPDATE interns SET first_name = ?1, last_name = ?2, school = ?3, department = ?4, start_date = ?5, end_date = ?6, status = ?7, contact = ?8, email = ?9";

#[test]
fn render_update_numbers_placeholders() {
    let writes = vec![
        ColumnWrite { column: "a", value: SqlParam::Integer(1) },
        ColumnWrite { column: "b", value: text("x") },
    ];
    let stmt = render_update("t", &writes, 9);
    assert_eq!(stmt.sql, "UPDATE t SET a = ?1, b = ?2 WHERE id = ?3");
    assert_eq!(stmt.params, vec![SqlParam::Integer(1), text("x"), SqlParam::Integer(9)]);
}

#[test]
fn render_update_without_writes() {
    let stmt = render_update("t", &Vec::new(), 4);
    assert_eq!(stmt.sql, "UPDATE t SET  WHERE id = ?1");
    assert_eq!(stmt.params, vec![SqlParam::Integer(4)]);
}

#[test]
fn render_update_past_nine_columns() {
    let names = ["c1", "c2", "c3", "c4", "c5", "c6", "c7", "c8", "c9", "c10", "c11"];
    let writes: Vec<ColumnWrite> =
        names.iter().map(|n| ColumnWrite { column: n, value: SqlParam::Null }).collect();
    let stmt = render_update("t", &writes, 0);
    assert!(stmt.sql.contains("c9 = ?9, c10 = ?10, c11 = ?11 WHERE id = ?12"));
    assert_eq!(stmt.params.len(), 12);
}

#[test]
fn render_insert_lists_columns_and_placeholders() {
    let writes = vec![
        ColumnWrite { column: "a", value: SqlParam::Integer(1) },
        ColumnWrite { column: "b", value: SqlParam::Blob(vec![1, 2, 3]) },
        ColumnWrite { column: "c", value: SqlParam::Null },
    ];
    let stmt = render_insert("t", &writes);
    assert_eq!(stmt.sql, "INSERT INTO t (a, b, c) VALUES (?1, ?2, ?3)");
    assert_eq!(
        stmt.params,
        vec![SqlParam::Integer(1), SqlParam::Blob(vec![1, 2, 3]), SqlParam::Null]
    );
}

#[test]
fn render_delete_finds_the_row_by_identity() {
    let stmt = render_delete("t", -3);
    assert_eq!(stmt.sql, "DELETE FROM t WHERE id = ?1");
    assert_eq!(stmt.params, vec![SqlParam::Integer(-3)]);
}

#[test]
fn insert_intern_writes_all_seventeen_columns() {
    let mut p = bare_payload();
    p.end_date = Some("2024-09-01".to_string());
    p.cv_name = Some("cv.pdf".to_string());
    p.cv_blob = Some(vec![9, 8, 7]);
    p.photo_mime = Some("image/png".to_string());
    p.photo_path = Some("/d/me.png".to_string());
    let stmt = insert_intern_statement(&p);
    assert_eq!(
        stmt.sql,
        "INSERT INTO interns (first_name, last_name, school, department, start_date, end_date, status, contact, email, cv_path, cv_name, cv_mime, cv_blob, photo_path, photo_name, photo_mime, photo_blob) VALUES (?1, ?2, ?3, ?4, ?5, ?6, ?7, ?8, ?9, ?10, ?11, ?12, ?13, ?14, ?15, ?16, ?17)"
    );
    let mut expected = scalar_params(&p);
    expected.extend(vec![
        SqlParam::Null,
        text("cv.pdf"),
        SqlParam::Null,
        SqlParam::Blob(vec![9, 8, 7]),
        text("/d/me.png"),
        SqlParam::Null,
        text("image/png"),
        SqlParam::Null,
    ]);
    assert_eq!(stmt.params, expected);
    assert_eq!(intern_insert_writes(&p).len(), 17);
}

#[test]
fn update_without_attachment_fields_writes_scalars_only() {
    for cv_path in [None, Some("/x/cv.pdf".to_string())] {
        let mut p = bare_payload();
        p.cv_path = cv_path;
        let stmt = update_intern_statement(5, &p);
        assert_eq!(stmt.sql, format!("{UPDATE_SCALARS} WHERE id = ?10"));
        let mut expected = scalar_params(&p);
        expected.push(SqlParam::Integer(5));
        assert_eq!(stmt.params, expected);
        let columns: Vec<&str> = intern_update_writes(&p).iter().map(|w| w.column).collect();
        for column in [
            "cv_path", "cv_name", "cv_mime", "cv_blob", "photo_path", "photo_name", "photo_mime",
            "photo_blob",
        ] {
            assert!(!columns.contains(&column));
        }
    }
}

#[test]
fn update_with_cv_fields_writes_the_four_cv_columns() {
    let mut p = bare_payload();
    p.cv_mime = Some("application/pdf".to_string());
    let stmt = update_intern_statement(5, &p);
    assert_eq!(
        stmt.sql,
        format!(
            "{UPDATE_SCALARS}, cv_path = ?10, cv_name = ?11, cv_mime = ?12, cv_blob = ?13 WHERE id = ?14"
        )
    );
    let mut expected = scalar_params(&p);
    expected.extend(vec![
        SqlParam::Null,
        SqlParam::Null,
        text("application/pdf"),
        SqlParam::Null,
        SqlParam::Integer(5),
    ]);
    assert_eq!(stmt.params, expected);
}

#[test]
fn update_with_photo_fields_writes_the_four_photo_columns() {
    let mut p = bare_payload();
    p.photo_blob = Some(vec![1]);
    p.photo_path = Some("/d/me.png".to_string());
    let stmt = update_intern_statement(8, &p);
    assert_eq!(
        stmt.sql,
        format!(
            "{UPDATE_SCALARS}, photo_path = ?10, photo_name = ?11, photo_mime = ?12, photo_blob = ?13 WHERE id = ?14"
        )
    );
    let mut expected = scalar_params(&p);
    expected.extend(vec![
        text("/d/me.png"),
        SqlParam::Null,
        SqlParam::Null,
        SqlParam::Blob(vec![1]),
        SqlParam::Integer(8),
    ]);
    assert_eq!(stmt.params, expected);
}

#[test]
fn update_with_both_attachments_writes_all_eight() {
    let mut p = bare_payload();
    p.cv_name = Some("a.pdf".to_string());
    p.photo_name = Some("b.png".to_string());
    let stmt = update_intern_statement(2, &p);
    assert_eq!(
        stmt.sql,
        format!(
            "{UPDATE_SCALARS}, cv_path = ?10, cv_name = ?11, cv_mime = ?12, cv_blob = ?13, photo_path = ?14, photo_name = ?15, photo_mime = ?16, photo_blob = ?17 WHERE id = ?18"
        )
    );
    assert_eq!(stmt.params.len(), 18);
    assert_eq!(stmt.params[10], text("a.pdf"));
    assert_eq!(stmt.params[14], text("b.png"));
    assert_eq!(stmt.params[17], SqlParam::Integer(2));
}

#[test]
fn delete_statements_name_their_table() {
    assert_eq!(delete_intern_statement(1).sql, "DELETE FROM interns WHERE id = ?1");
    assert_eq!(delete_assignment_statement(2).sql, "DELETE FROM assignments WHERE id = ?1");
    assert_eq!(delete_evaluation_statement(3).sql, "DELETE FROM evaluations WHERE id = ?1");
    assert_eq!(delete_intern_statement(1).params, vec![SqlParam::Integer(1)]);
    assert_eq!(delete_assignment_statement(2).params, vec![SqlParam::Integer(2)]);
    assert_eq!(delete_evaluation_statement(3).params, vec![SqlParam::Integer(3)]);
}

#[test]
fn insert_assignment_leaves_identity_and_time_to_the_store() {
    let a = Assignment {
        id: Some(99),
        intern_id: 4,
        project_type: "web".to_string(),
        task_description: "landing page".to_string(),
        due_date: "2024-07-01".to_string(),
        status: "open".to_string(),
        file_path: None,
        created_at: Some("ignored".to_string()),
    };
    let stmt = insert_assignment_statement(&a);
    assert_eq!(
        stmt.sql,
        "INSERT INTO assignments (intern_id, project_type, task_description, due_date, status, file_path) VALUES (?1, ?2, ?3, ?4, ?5, ?6)"
    );
    assert_eq!(
        stmt.params,
        vec![
            SqlParam::Integer(4),
            text("web"),
            text("landing page"),
            text("2024-07-01"),
            text("open"),
            SqlParam::Null,
        ]
    );
}

fn evaluation(score: i64) -> Evaluation {
    Evaluation { id: None, intern_id: 3, label: "weekly".to_string(), score, created_at: None }
}

#[test]
fn scores_from_zero_to_hundred_are_valid() {
    for score in 0..=100 {
        assert!(score_is_valid(score));
        assert!(insert_evaluation_statement(&evaluation(score)).is_ok());
    }
}

#[test]
fn scores_outside_the_range_are_refused() {
    for score in [-1, 101, i64::MIN, i64::MAX, -100, 1000] {
        assert!(!score_is_valid(score));
        assert_eq!(
            insert_evaluation_statement(&evaluation(score)),
            Err(EvaluationError::ScoreOutOfRange { score })
        );
    }
    assert_eq!(
        EvaluationError::ScoreOutOfRange { score: 101 }.message(),
        "CHECK constraint failed: score BETWEEN 0 AND 100"
    );
}

#[test]
fn insert_evaluation_binds_owner_label_and_score() {
    let stmt = insert_evaluation_statement(&evaluation(87)).unwrap();
    assert_eq!(stmt.sql, "INSERT INTO evaluations (intern_id, label, score) VALUES (?1, ?2, ?3)");
    assert_eq!(stmt.params, vec![SqlParam::Integer(3), text("weekly"), SqlParam::Integer(87)]);
}
