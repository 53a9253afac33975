use intern_tracker::files::EXPORT_SOURCE_MISSING;
use intern_tracker::{check_export_source, export_failure, save_failure, ExportStage, SaveStage};

#[test]
fn export_before_the_database_exists_is_refused_as_not_yet_created() {
    assert_eq!(
        check_export_source(false),
        Err("Veritabanı dosyası bulunamadı (henüz oluşturulmamış olabilir).".to_string())
    );
    assert_ne!(
        check_export_source(false),
        Err(export_failure(ExportStage::Copy, "No such file or directory (os error 2)"))
    );
}

#[test]
fn export_of_an_existing_database_may_start() {
    assert_eq!(check_export_source(true), Ok(()));
}

#[test]
fn export_failures_name_their_stage() {
    assert_eq!(export_failure(ExportStage::Source, "whatever"), EXPORT_SOURCE_MISSING);
    assert_eq!(
        export_failure(ExportStage::Folder, "Permission denied"),
        "Klasör oluşturulamadı: Permission denied"
    );
    assert_eq!(export_failure(ExportStage::Copy, "disk full"), "Dosya kopyalanamadı: disk full");
    assert_eq!(export_failure(ExportStage::Copy, ""), "Dosya kopyalanamadı: ");
}

#[test]
fn save_failures_name_their_stage() {
    assert_eq!(
        save_failure(SaveStage::Folder, "Permission denied"),
        "Dizin oluşturulamadı: Permission denied"
    );
    assert_eq!(save_failure(SaveStage::Write, "disk full"), "Dosya yazılamadı: disk full");
}
