use intern_tracker::names::{
    cv_archive_name, database_url, CV_ARCHIVE_DIR_NAME, DB_FILE_NAME, DEFAULT_EXTENSION,
    PERSONS_DIR_NAME, STORAGE_ROOT_NAME,
};
use intern_tracker::text::decimal_string;
use intern_tracker::{cv_archive_name_for, person_dir_name};

#[test]
fn decimal_text_of_integers() {
    assert_eq!(decimal_string(0), "0");
    assert_eq!(decimal_string(7), "7");
    assert_eq!(decimal_string(10), "10");
    assert_eq!(decimal_string(12345), "12345");
    assert_eq!(decimal_string(-1), "-1");
    assert_eq!(decimal_string(-120), "-120");
    assert_eq!(decimal_string(i64::MAX), "9223372036854775807");
    assert_eq!(decimal_string(i64::MIN), "-9223372036854775808");
}

#[test]
fn person_folder_is_identity_and_slugs() {
    assert_eq!(person_dir_name(1, "Ayşe", "Çelik"), "1_ayse_celik");
    assert_eq!(person_dir_name(42, "Bora", "Acar"), "42_bora_acar");
    assert_eq!(person_dir_name(7, "Ali Veli", "Öz-Türk"), "7_ali_veli_oz_turk");
    assert_eq!(person_dir_name(3, "", ""), "3__");
    assert_eq!(person_dir_name(-5, "x", "y"), "-5_x_y");
}

#[test]
fn archive_name_takes_the_extension_given() {
    assert_eq!(cv_archive_name(1, "Ayşe", "Çelik", Some("pdf")), "1_ayse_celik.pdf");
    assert_eq!(cv_archive_name(1, "Ayşe", "Çelik", None), "1_ayse_celik.bin");
    assert_eq!(cv_archive_name(9, "A", "B", Some("")), "9_a_b.");
}

#[test]
fn archive_name_takes_the_extension_of_the_file_name() {
    assert_eq!(cv_archive_name_for(1, "Ayşe", "Çelik", "cv.pdf"), "1_ayse_celik.pdf");
    assert_eq!(cv_archive_name_for(1, "Ayşe", "Çelik", "cv.tar.gz"), "1_ayse_celik.gz");
    assert_eq!(cv_archive_name_for(2, "Bora", "Acar", "Resume.DOCX"), "2_bora_acar.DOCX");
}

#[test]
fn archive_name_takes_what_follows_the_last_dot() {
    assert_eq!(cv_archive_name_for(1, "a", "b", "cv."), "1_a_b.");
    assert_eq!(cv_archive_name_for(1, "a", "b", "..."), "1_a_b.");
    assert_eq!(cv_archive_name_for(1, "a", "b", "..pdf"), "1_a_b.pdf");
    assert_eq!(cv_archive_name_for(1, "a", "b", ".cv.pdf"), "1_a_b.pdf");
    assert_eq!(cv_archive_name_for(1, "a", "b", "öz geçmiş.PDF"), "1_a_b.PDF");
}

#[test]
fn archive_name_falls_back_to_bin() {
    assert_eq!(cv_archive_name_for(1, "a", "b", "."), "1_a_b.bin");
    assert_eq!(cv_archive_name_for(1, "a", "b", ".pdf"), "1_a_b.bin");
    assert_eq!(cv_archive_name_for(1, "Ayşe", "Çelik", "cv"), "1_ayse_celik.bin");
    assert_eq!(cv_archive_name_for(1, "Ayşe", "Çelik", ""), "1_ayse_celik.bin");
    assert_eq!(cv_archive_name_for(1, "Ayşe", "Çelik", ".hidden"), "1_ayse_celik.bin");
}

#[test]
fn fixed_names() {
    assert_eq!(DB_FILE_NAME, "interns.db");
    assert_eq!(STORAGE_ROOT_NAME, "InternTracker");
    assert_eq!(PERSONS_DIR_NAME, "interns");
    assert_eq!(CV_ARCHIVE_DIR_NAME, "CV");
    assert_eq!(DEFAULT_EXTENSION, "bin");
}

#[test]
fn database_address_uses_slashes() {
    assert_eq!(
        database_url("C:\\Users\\ayşe\\AppData\\interns.db"),
        "sqlite:C:/Users/ayşe/AppData/interns.db"
    );
    assert_eq!(database_url("/home/ayse/.local/interns.db"), "sqlite:/home/ayse/.local/interns.db");
    assert_eq!(database_url(""), "sqlite:");
    assert_eq!(database_url("\\"), "sqlite:/");
}
