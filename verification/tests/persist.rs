use intern_tracker::{
    add_intern, get_intern_files, open_conn, plan_attachment_writes, record_attachment,
    step_failure, InternPayload, PersistStep, Store,
};
use std::collections::HashMap;

/// Folders and files held in memory, standing in for the disk.
struct Disk {
    folders: Vec<String>,
    files: HashMap<String, Vec<u8>>,
}

fn write(disk: &mut Disk, folder: &str, name: &str, bytes: &[u8]) -> Result<(), String> {
    if !disk.folders.iter().any(|f| f == folder) {
        return Err("No such file or directory (os error 2)".to_string());
    }
    disk.files.insert(format!("{folder}/{name}"), bytes.to_vec());
    Ok(())
}

fn copy(disk: &mut Disk, from: &str, folder: &str, name: &str) -> Result<(), String> {
    let bytes = disk.files.get(from).cloned().ok_or("No such file or directory (os error 2)")?;
    write(disk, folder, name, &bytes)
}

fn person_with_cv(bytes: &[u8]) -> InternPayload {
    InternPayload {
        id: None,
        first_name: "Ayşe".to_string(),
        last_name: "Çelik".to_string(),
        school: "ODTÜ".to_string(),
        department: "CENG".to_string(),
        start_date: "2024-06-01".to_string(),
        end_date: None,
        status: "active".to_string(),
        contact: "555".to_string(),
        email: "x@example.com".to_string(),
        cv_path: None,
        photo_path: None,
        cv_name: Some("cv.pdf".to_string()),
        cv_mime: Some("application/pdf".to_string()),
        cv_blob: Some(bytes.to_vec()),
        photo_name: None,
        photo_mime: None,
        photo_blob: None,
    }
}

fn carry_out(
    store: &mut Store,
    disk: &mut Disk,
    id: i64,
    p: &InternPayload,
    folder: &str,
    archive: &str,
) -> Result<(), String> {
    for step in plan_attachment_writes(id, p) {
        let outcome = match &step {
            PersistStep::Write { file_name, bytes, .. } => write(disk, folder, file_name, bytes),
            PersistStep::Archive { file_name, archive_name } => {
                copy(disk, &format!("{folder}/{file_name}"), archive, archive_name)
            }
            PersistStep::Record { kind, file_name, name, mime } => {
                record_attachment(store, id, *kind, &format!("{folder}/{file_name}"), name, mime)
            }
        };
        if let Err(detail) = outcome {
            if let Some(message) = step_failure(&step, &detail) {
                return Err(message);
            }
        }
    }
    Ok(())
}

#[test]
fn the_recorded_path_holds_the_payload() {
    let bytes = b"%PDF-1.4 payload".to_vec();
    let mut store = open_conn(":memory:").unwrap();
    let p = person_with_cv(&bytes);
    let id = add_intern(&mut store, &p).unwrap();
    let folder = format!("/desktop/InternTracker/interns/{id}_ayse_celik");
    let archive = "/desktop/InternTracker/CV".to_string();
    let mut disk = Disk { folders: vec![folder.clone(), archive.clone()], files: HashMap::new() };

    carry_out(&mut store, &mut disk, id, &p, &folder, &archive).unwrap();

    let files = get_intern_files(&mut store, id).unwrap();
    assert_eq!(files.cv_blob, Some(bytes.clone()));
    let path = files.cv_path.unwrap();
    assert_eq!(path, format!("{folder}/cv.pdf"));
    assert_eq!(disk.files.get(&path), Some(&bytes));
    assert_eq!(disk.files.get(&format!("{archive}/{id}_ayse_celik.pdf")), Some(&bytes));
    assert_eq!(disk.files.len(), 2);
}

#[test]
fn a_failed_write_stops_before_the_path_is_recorded() {
    let mut store = open_conn(":memory:").unwrap();
    let mut p = person_with_cv(b"x");
    p.photo_name = Some("me.png".to_string());
    p.photo_blob = Some(vec![1]);
    let id = add_intern(&mut store, &p).unwrap();
    let mut disk = Disk { folders: Vec::new(), files: HashMap::new() };
    let err = carry_out(&mut store, &mut disk, id, &p, "/nowhere", "/nowhere/CV").unwrap_err();
    assert_eq!(err, "CV yazılamadı: No such file or directory (os error 2)");
    let files = get_intern_files(&mut store, id).unwrap();
    assert_eq!(files.cv_path, None);
    assert_eq!(files.photo_path, None);
    assert_eq!(files.cv_blob, Some(b"x".to_vec()));
    assert!(disk.files.is_empty());
}

#[test]
fn a_failed_archive_copy_does_not_fail_the_operation() {
    let mut store = open_conn(":memory:").unwrap();
    let mut p = person_with_cv(b"y");
    p.photo_blob = Some(vec![2]);
    let id = add_intern(&mut store, &p).unwrap();
    let folder = "/d/person".to_string();
    let mut disk = Disk { folders: vec![folder.clone()], files: HashMap::new() };
    carry_out(&mut store, &mut disk, id, &p, &folder, "/d/absent/CV").unwrap();
    let files = get_intern_files(&mut store, id).unwrap();
    assert_eq!(files.cv_path, Some("/d/person/cv.pdf".to_string()));
    assert_eq!(files.photo_path, Some("/d/person/photo.bin".to_string()));
    assert_eq!(disk.files.len(), 2);
}

#[test]
fn a_failed_record_stops_the_remaining_steps() {
    let mut store = open_conn(":memory:").unwrap();
    let mut p = person_with_cv(b"z");
    p.photo_blob = Some(vec![3]);
    let id = add_intern(&mut store, &p).unwrap();
    store.connection().execute_batch("ALTER TABLE interns RENAME COLUMN cv_mime TO cv_kind").unwrap();
    let folder = "/d/person".to_string();
    let mut disk = Disk { folders: vec![folder.clone()], files: HashMap::new() };
    let err = carry_out(&mut store, &mut disk, id, &p, &folder, "/d/CV").unwrap_err();
    assert!(err.contains("cv_mime"));
    assert!(disk.files.contains_key("/d/person/cv.pdf"));
    assert!(!disk.files.contains_key("/d/person/photo.bin"));
}
