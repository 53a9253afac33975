//! Storage core of an intern tracker: schema reconciliation, the statements
//! and row decoding of the record repository, attachment planning and the
//! naming of the files kept beside the database.

pub mod text;
pub mod slug;
pub mod names;
pub mod value;
pub mod model;
pub mod statements;
pub mod rows;
pub mod persons;
pub mod assignments;
pub mod evaluations;
pub mod store;
pub mod schema;
pub mod attachments;
pub mod repository;
pub mod files;

pub use attachments::{plan_attachment_writes, step_failure, AttachmentKind, PersistStep};
pub use files::{check_export_source, export_failure, save_failure, ExportStage, SaveStage};
pub use model::{Assignment, Evaluation, Intern, InternFiles, InternLite, InternPayload};
pub use names::{cv_archive_name_for, person_dir_name};
pub use repository::{
    add_assignment, add_evaluation, add_intern, count_interns_missing_note_for_date,
    debug_db_snapshot, delete_assignment, delete_evaluation, delete_intern, get_assignments,
    get_evaluations, get_intern_files, get_interns_from_db, record_attachment, update_intern,
};
pub use schema::{add_column_if_missing, ensure_schema, get_migrations, open_conn};
pub use slug::slug_tr;
pub use statements::SqlStatement;
pub use store::Store;
pub use value::{SqlParam, SqlValue};
