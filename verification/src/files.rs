//! Exporting the database and saving a file: what each stage's failure is
//! reported with, and when an export may start.

use vstd::prelude::*;

verus! {

/// What an export is refused with while the database file does not exist.
pub const EXPORT_SOURCE_MISSING: &'static str =
    "Veritabanı dosyası bulunamadı (henüz oluşturulmamış olabilir).";

/// The stages of an export, in the order in which they run.
#[derive(Clone, Copy, Debug, PartialEq, Eq)]
pub enum ExportStage {
    /// The database file is looked for.
    Source,
    /// The folder of the destination is created where it is absent.
    Folder,
    /// The database file is copied to the destination.
    Copy,
}

/// The stages of saving a file, in the order in which they run.
#[derive(Clone, Copy, Debug, PartialEq, Eq)]
pub enum SaveStage {
    /// The folder of the file is created where it is absent.
    Folder,
    /// The bytes are written.
    Write,
}

/// What a failed stage of an export is reported with. A missing database
/// file has a message of its own, so that it is told apart from a failed
/// copy.
pub open spec fn export_failure_text(stage: ExportStage, detail: Seq<char>) -> Seq<char> {
    match stage {
        ExportStage::Source => EXPORT_SOURCE_MISSING@,
        ExportStage::Folder => "Klasör oluşturulamadı: "@ + detail,
        ExportStage::Copy => "Dosya kopyalanamadı: "@ + detail,
    }
}

/// What a failed stage of saving a file is reported with.
pub open spec fn save_failure_text(stage: SaveStage, detail: Seq<char>) -> Seq<char> {
    match stage {
        SaveStage::Folder => "Dizin oluşturulamadı: "@ + detail,
        SaveStage::Write => "Dosya yazılamadı: "@ + detail,
    }
}

/// The text that reports a failed stage of an export.
pub fn export_failure(stage: ExportStage, detail: &str) -> (message: String)
    ensures
        message@ == export_failure_text(stage, detail@),
{
    match stage {
        ExportStage::Source => EXPORT_SOURCE_MISSING.to_string(),
        ExportStage::Folder => {
            let mut message = String::new();
            message.append("Klasör oluşturulamadı: ");
            message.append(detail);
            assert(message@ =~= export_failure_text(stage, detail@));
            message
        },
        ExportStage::Copy => {
            let mut message = String::new();
            message.append("Dosya kopyalanamadı: ");
            message.append(detail);
            assert(message@ =~= export_failure_text(stage, detail@));
            message
        },
    }
}

/// The text that reports a failed stage of saving a file.
pub fn save_failure(stage: SaveStage, detail: &str) -> (message: String)
    ensures
        message@ == save_failure_text(stage, detail@),
{
    let mut message = String::new();
    match stage {
        SaveStage::Folder => {
            message.append("Dizin oluşturulamadı: ");
        },
        SaveStage::Write => {
            message.append("Dosya yazılamadı: ");
        },
    }
    message.append(detail);
    assert(message@ =~= save_failure_text(stage, detail@));
    message
}

/// Decides whether an export may start: it may when the database file
/// exists, and is refused with [`EXPORT_SOURCE_MISSING`] while it does not.
pub fn check_export_source(source_exists: bool) -> (r: Result<(), String>)
    ensures
        r is Ok <==> source_exists,
        r matches Err(message) ==> message@ == EXPORT_SOURCE_MISSING@,
{
    if source_exists {
        Ok(())
    } else {
        Err(export_failure(ExportStage::Source, ""))
    }
}

} // verus!
