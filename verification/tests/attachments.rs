use intern_tracker::attachments::{
    cv_file_name, persist_steps, photo_file_name, record_statement, DEFAULT_CV_FILE_NAME,
    DEFAULT_PHOTO_FILE_NAME,
};
use intern_tracker::{
    plan_attachment_writes, step_failure, AttachmentKind, InternPayload, PersistStep, SqlParam,
};

fn person() -> InternPayload {
    InternPayload {
        id: None,
        first_name: "Ayşe".to_string(),
        last_name: "Çelik".to_string(),
        school: "ODTÜ".to_string(),
        department: "CENG".to_string(),
        start_date: "2024-06-01".to_string(),
        end_date: None,
        status: "active".to_string(),
        contact: "555".to_string(),
        email: "x@example.com".to_string(),
        cv_path: None,
        photo_path: None,
        cv_name: None,
        cv_mime: None,
        cv_blob: None,
        photo_name: None,
        photo_mime: None,
        photo_blob: None,
    }
}

#[test]
fn no_bytes_no_steps() {
    let mut p = person();
    assert!(plan_attachment_writes(1, &p).is_empty());
    p.cv_name = Some("cv.pdf".to_string());
    p.cv_mime = Some("application/pdf".to_string());
    p.photo_name = Some("me.png".to_string());
    p.cv_path = Some("/somewhere/cv.pdf".to_string());
    assert!(plan_attachment_writes(1, &p).is_empty());
}

#[test]
fn cv_is_written_archived_and_recorded() {
    let mut p = person();
    p.cv_name = Some("cv.pdf".to_string());
    p.cv_mime = Some("application/pdf".to_string());
    p.cv_blob = Some(vec![1, 2, 3]);
    p.photo_name = Some("me.png".to_string());
    assert_eq!(
        plan_attachment_writes(12, &p),
        vec![
            PersistStep::Write {
                kind: AttachmentKind::Cv,
                file_name: "cv.pdf".to_string(),
                bytes: vec![1, 2, 3],
            },
            PersistStep::Archive {
                file_name: "cv.pdf".to_string(),
                archive_name: "12_ayse_celik.pdf".to_string(),
            },
            PersistStep::Record {
                kind: AttachmentKind::Cv,
                file_name: "cv.pdf".to_string(),
                name: Some("cv.pdf".to_string()),
                mime: Some("application/pdf".to_string()),
            },
        ]
    );
}

#[test]
fn photo_is_written_and_recorded_without_archive() {
    let mut p = person();
    p.photo_name = Some("me.png".to_string());
    p.photo_blob = Some(vec![7]);
    p.cv_name = Some("cv.pdf".to_string());
    assert_eq!(
        plan_attachment_writes(3, &p),
        vec![
            PersistStep::Write {
                kind: AttachmentKind::Photo,
                file_name: "me.png".to_string(),
                bytes: vec![7],
            },
            PersistStep::Record {
                kind: AttachmentKind::Photo,
                file_name: "me.png".to_string(),
                name: Some("me.png".to_string()),
                mime: None,
            },
        ]
    );
}

#[test]
fn nameless_payloads_get_the_default_names() {
    let mut p = person();
    p.cv_blob = Some(vec![]);
    p.photo_blob = Some(vec![0]);
    assert_eq!(cv_file_name(&p), DEFAULT_CV_FILE_NAME);
    assert_eq!(photo_file_name(&p), DEFAULT_PHOTO_FILE_NAME);
    assert_eq!(DEFAULT_CV_FILE_NAME, "cv.bin");
    assert_eq!(DEFAULT_PHOTO_FILE_NAME, "photo.bin");
    assert_eq!(
        plan_attachment_writes(4, &p),
        vec![
            PersistStep::Write {
                kind: AttachmentKind::Cv,
                file_name: "cv.bin".to_string(),
                bytes: vec![],
            },
            PersistStep::Archive {
                file_name: "cv.bin".to_string(),
                archive_name: "4_ayse_celik.bin".to_string(),
            },
            PersistStep::Record {
                kind: AttachmentKind::Cv,
                file_name: "cv.bin".to_string(),
                name: None,
                mime: None,
            },
            PersistStep::Write {
                kind: AttachmentKind::Photo,
                file_name: "photo.bin".to_string(),
                bytes: vec![0],
            },
            PersistStep::Record {
                kind: AttachmentKind::Photo,
                file_name: "photo.bin".to_string(),
                name: None,
                mime: None,
            },
        ]
    );
}

#[test]
fn a_cv_name_without_dot_is_archived_as_bin() {
    let mut p = person();
    p.cv_name = Some("resume".to_string());
    p.cv_blob = Some(vec![1]);
    let steps = plan_attachment_writes(5, &p);
    assert_eq!(
        steps[1],
        PersistStep::Archive {
            file_name: "resume".to_string(),
            archive_name: "5_ayse_celik.bin".to_string(),
        }
    );
}

#[test]
fn steps_for_a_given_extension() {
    let mut p = person();
    p.cv_name = Some("cv.pdf".to_string());
    p.cv_blob = Some(vec![1]);
    let steps = persist_steps(5, &p, Some("docx"));
    assert_eq!(
        steps[1],
        PersistStep::Archive {
            file_name: "cv.pdf".to_string(),
            archive_name: "5_ayse_celik.docx".to_string(),
        }
    );
    assert_eq!(persist_steps(5, &p, None).len(), 3);
}

#[test]
fn a_failed_write_names_the_attachment() {
    let cv = PersistStep::Write {
        kind: AttachmentKind::Cv,
        file_name: "cv.pdf".to_string(),
        bytes: vec![],
    };
    let photo = PersistStep::Write {
        kind: AttachmentKind::Photo,
        file_name: "me.png".to_string(),
        bytes: vec![],
    };
    assert_eq!(
        step_failure(&cv, "Permission denied (os error 13)"),
        Some("CV yazılamadı: Permission denied (os error 13)".to_string())
    );
    assert_eq!(step_failure(&photo, "disk full"), Some("Foto yazılamadı: disk full".to_string()));
}

#[test]
fn a_failed_archive_copy_is_passed_over() {
    let step =
        PersistStep::Archive { file_name: "cv.pdf".to_string(), archive_name: "1_a_b.pdf".to_string() };
    assert_eq!(step_failure(&step, "No such file or directory"), None);
}

#[test]
fn a_failed_record_is_reported_as_it_is() {
    let step = PersistStep::Record {
        kind: AttachmentKind::Cv,
        file_name: "cv.pdf".to_string(),
        name: None,
        mime: None,
    };
    assert_eq!(step_failure(&step, "database is locked"), Some("database is locked".to_string()));
}

#[test]
fn recording_writes_path_name_and_mime() {
    let stmt = record_statement(
        9,
        AttachmentKind::Cv,
        "/d/cv.pdf",
        &Some("cv.pdf".to_string()),
        &None,
    );
    assert_eq!(stmt.sql, "UPDATE interns SET cv_path = ?1, cv_name = ?2, cv_mime = ?3 WHERE id = ?4");
    assert_eq!(
        stmt.params,
        vec![
            SqlParam::Text("/d/cv.pdf".to_string()),
            SqlParam::Text("cv.pdf".to_string()),
            SqlParam::Null,
            SqlParam::Integer(9),
        ]
    );
    let stmt = record_statement(
        9,
        AttachmentKind::Photo,
        "/d/me.png",
        &None,
        &Some("image/png".to_string()),
    );
    assert_eq!(
        stmt.sql,
        "UPDATE interns SET photo_path = ?1, photo_name = ?2, photo_mime = ?3 WHERE id = ?4"
    );
    assert_eq!(
        stmt.params,
        vec![
            SqlParam::Text("/d/me.png".to_string()),
            SqlParam::Null,
            SqlParam::Text("image/png".to_string()),
            SqlParam::Integer(9),
        ]
    );
}
