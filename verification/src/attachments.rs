//! Keeping the two attachments of a person on disk: which files a request
//! asks to be written, in which order, what a failure of each step means,
//! and the statement that records a written file on the person's row.

use vstd::prelude::*;
use crate::model::InternPayload;
use crate::names::{
    cv_archive_name, cv_archive_text, extension_of, extension_view, is_plain_name,
    path_extension,
};
use crate::persons::INTERNS_TABLE;
use crate::rows::text_view;
use crate::statements::{
    render_update, update_of, write_pairs, ColumnWrite, SqlStatement, StatementData, Write,
};
use crate::value::{copy_bytes, optional_text_param, text_or_null, SqlData, SqlParam};

verus! {

/// The name of a CV that was handed in without one.
pub const DEFAULT_CV_FILE_NAME: &'static str = "cv.bin";

/// The name of a photo that was handed in without one.
pub const DEFAULT_PHOTO_FILE_NAME: &'static str = "photo.bin";

/// The two attachments of a person.
#[derive(Clone, Copy, Debug, PartialEq, Eq)]
pub enum AttachmentKind {
    Cv,
    Photo,
}

/// One step of keeping a request's attachments on disk.
#[derive(Clone, Debug, PartialEq, Eq)]
pub enum PersistStep {
    /// Write `bytes` to the file `file_name` in the person's folder.
    Write { kind: AttachmentKind, file_name: String, bytes: Vec<u8> },
    /// Copy the file `file_name` of the person's folder to `archive_name` in
    /// the flat archive of CVs.
    Archive { file_name: String, archive_name: String },
    /// Record on the person's row the path of the file `file_name` of the
    /// person's folder, with the name and the MIME type that were handed in.
    Record { kind: AttachmentKind, file_name: String, name: Option<String>, mime: Option<String> },
}

/// The content of a [`PersistStep`].
pub enum Step {
    Write { kind: AttachmentKind, file_name: Seq<char>, bytes: Seq<u8> },
    Archive { file_name: Seq<char>, archive_name: Seq<char> },
    Record {
        kind: AttachmentKind,
        file_name: Seq<char>,
        name: Option<Seq<char>>,
        mime: Option<Seq<char>>,
    },
}

impl View for PersistStep {
    type V = Step;

    open spec fn view(&self) -> Step {
        match self {
            PersistStep::Write { kind, file_name, bytes } => Step::Write {
                kind: *kind,
                file_name: file_name@,
                bytes: bytes@,
            },
            PersistStep::Archive { file_name, archive_name } => Step::Archive {
                file_name: file_name@,
                archive_name: archive_name@,
            },
            PersistStep::Record { kind, file_name, name, mime } => Step::Record {
                kind: *kind,
                file_name: file_name@,
                name: text_view(*name),
                mime: text_view(*mime),
            },
        }
    }
}

/// The contents of a list of steps.
pub open spec fn steps_view(steps: Seq<PersistStep>) -> Seq<Step> {
    steps.map_values(|s: PersistStep| s@)
}

/// The file name under which the CV of a request is written: the name that
/// was handed in, or the default name.
pub open spec fn cv_file_text(p: InternPayload) -> Seq<char> {
    match p.cv_name {
        Some(name) => name@,
        None => DEFAULT_CV_FILE_NAME@,
    }
}

/// The file name under which the photo of a request is written.
pub open spec fn photo_file_text(p: InternPayload) -> Seq<char> {
    match p.photo_name {
        Some(name) => name@,
        None => DEFAULT_PHOTO_FILE_NAME@,
    }
}

/// The steps for the CV of a request: none when it carries no bytes for it;
/// otherwise the file is written, copied to the archive under the name that
/// goes with `extension`, and recorded.
pub open spec fn cv_steps(id: int, p: InternPayload, extension: Option<Seq<char>>) -> Seq<Step> {
    match p.cv_blob {
        Some(bytes) => seq![
            Step::Write { kind: AttachmentKind::Cv, file_name: cv_file_text(p), bytes: bytes@ },
            Step::Archive {
                file_name: cv_file_text(p),
                archive_name: cv_archive_text(id, p.first_name@, p.last_name@, extension),
            },
            Step::Record {
                kind: AttachmentKind::Cv,
                file_name: cv_file_text(p),
                name: text_view(p.cv_name),
                mime: text_view(p.cv_mime),
            },
        ],
        None => Seq::<Step>::empty(),
    }
}

/// The steps for the photo of a request: none when it carries no bytes for
/// it; otherwise the file is written and recorded.
pub open spec fn photo_steps(p: InternPayload) -> Seq<Step> {
    match p.photo_blob {
        Some(bytes) => seq![
            Step::Write {
                kind: AttachmentKind::Photo,
                file_name: photo_file_text(p),
                bytes: bytes@,
            },
            Step::Record {
                kind: AttachmentKind::Photo,
                file_name: photo_file_text(p),
                name: text_view(p.photo_name),
                mime: text_view(p.photo_mime),
            },
        ],
        None => Seq::<Step>::empty(),
    }
}

/// The steps of a request, the CV first.
pub open spec fn persist_plan(id: int, p: InternPayload, extension: Option<Seq<char>>) -> Seq<
    Step,
> {
    cv_steps(id, p, extension) + photo_steps(p)
}

/// Whether `write` is the step that writes the file which `record` records.
pub open spec fn writes_for(write: Step, record: Step) -> bool {
    &&& write is Write
    &&& record is Record
    &&& write->Write_kind == record->Record_kind
    &&& write->Write_file_name == record->Record_file_name
}

/// Whether each step of a plan that records a file follows a step that
/// writes the file of that name for the same attachment.
pub open spec fn records_follow_writes(plan: Seq<Step>) -> bool {
    forall|i: int|
        0 <= i < plan.len() && (#[trigger] plan[i]) is Record ==> exists|j: int|
            0 <= j < i && writes_for(#[trigger] plan[j], plan[i])
}

/// Whatever a plan records was written before by the same plan. So the path
/// on a person's row is the path of the file that the latest write for the
/// attachment made.
pub proof fn recorded_files_were_written(id: int, p: InternPayload, extension: Option<Seq<char>>)
    ensures
        records_follow_writes(persist_plan(id, p, extension)),
{
    let plan = persist_plan(id, p, extension);
    assert forall|i: int| 0 <= i < plan.len() && (#[trigger] plan[i]) is Record implies exists|
        j: int,
    |
        0 <= j < i && writes_for(#[trigger] plan[j], plan[i]) by {
        if p.cv_blob is Some && i == 2 {
            assert(writes_for(plan[0], plan[i]));
        } else {
            assert(writes_for(plan[i - 1], plan[i]));
        }
    }
}

fn optional_text_copy(text: &Option<String>) -> (copy: Option<String>)
    ensures
        text_view(copy) == text_view(*text),
{
    match text {
        Some(t) => Some(t.clone()),
        None => None,
    }
}

/// The file name under which the CV of a request is written.
pub fn cv_file_name(p: &InternPayload) -> (name: String)
    ensures
        name@ == cv_file_text(*p),
{
    match &p.cv_name {
        Some(name) => name.clone(),
        None => DEFAULT_CV_FILE_NAME.to_string(),
    }
}

/// The file name under which the photo of a request is written.
pub fn photo_file_name(p: &InternPayload) -> (name: String)
    ensures
        name@ == photo_file_text(*p),
{
    match &p.photo_name {
        Some(name) => name.clone(),
        None => DEFAULT_PHOTO_FILE_NAME.to_string(),
    }
}

/// The steps that keep the attachments of a request on disk, for the person
/// with identity `id`, given the extension of the CV's file name. An
/// attachment without bytes gives no step, whatever the other one carries.
pub fn persist_steps(id: i64, p: &InternPayload, extension: Option<&str>) -> (steps: Vec<
    PersistStep,
>)
    ensures
        steps_view(steps@) == persist_plan(id as int, *p, extension_view(extension)),
{
    let mut steps: Vec<PersistStep> = Vec::new();
    if let Some(bytes) = &p.cv_blob {
        steps.push(
            PersistStep::Write {
                kind: AttachmentKind::Cv,
                file_name: cv_file_name(p),
                bytes: copy_bytes(bytes),
            },
        );
        steps.push(
            PersistStep::Archive {
                file_name: cv_file_name(p),
                archive_name: cv_archive_name(
                    id,
                    p.first_name.as_str(),
                    p.last_name.as_str(),
                    extension,
                ),
            },
        );
        steps.push(
            PersistStep::Record {
                kind: AttachmentKind::Cv,
                file_name: cv_file_name(p),
                name: optional_text_copy(&p.cv_name),
                mime: optional_text_copy(&p.cv_mime),
            },
        );
    }
    assert(steps_view(steps@) =~= cv_steps(id as int, *p, extension_view(extension)));
    if let Some(bytes) = &p.photo_blob {
        steps.push(
            PersistStep::Write {
                kind: AttachmentKind::Photo,
                file_name: photo_file_name(p),
                bytes: copy_bytes(bytes),
            },
        );
        steps.push(
            PersistStep::Record {
                kind: AttachmentKind::Photo,
                file_name: photo_file_name(p),
                name: optional_text_copy(&p.photo_name),
                mime: optional_text_copy(&p.photo_mime),
            },
        );
    }
    assert(steps_view(steps@) =~= persist_plan(id as int, *p, extension_view(extension)));
    steps
}

/// The steps that keep the attachments of a request on disk, for the person
/// with identity `id`: the plan of [`persist_plan`] for the extension that
/// the CV's file name has. For a plain file name that is the extension of
/// [`extension_of`], and for a name without a dot it is none. A request
/// without bytes gives no step.
pub fn plan_attachment_writes(id: i64, p: &InternPayload) -> (steps: Vec<PersistStep>)
    ensures
        exists|extension: Option<Seq<char>>|
            steps_view(steps@) == #[trigger] persist_plan(id as int, *p, extension),
        !cv_file_text(*p).contains('.') ==> steps_view(steps@) == persist_plan(
            id as int,
            *p,
            None,
        ),
        is_plain_name(cv_file_text(*p)) ==> steps_view(steps@) == persist_plan(
            id as int,
            *p,
            extension_of(cv_file_text(*p)),
        ),
        p.cv_blob is None && p.photo_blob is None ==> steps@.len() == 0,
{
    let file_name = cv_file_name(p);
    let extension = path_extension(file_name.as_str());
    let steps = persist_steps(id, p, extension);
    assert(steps_view(steps@) == persist_plan(id as int, *p, extension_view(extension)));
    steps
}

/// What a failed write of an attachment is reported with: the attachment
/// named, then the detail.
pub open spec fn write_failure_text(kind: AttachmentKind, detail: Seq<char>) -> Seq<char> {
    match kind {
        AttachmentKind::Cv => "CV yazılamadı: "@ + detail,
        AttachmentKind::Photo => "Foto yazılamadı: "@ + detail,
    }
}

/// What the failure of a step means: a failed write stops the remaining
/// steps and is reported with the attachment named; a failed copy to the
/// archive is passed over; a failed record stops the remaining steps and is
/// reported as it is.
pub open spec fn failure_of(step: Step, detail: Seq<char>) -> Option<Seq<char>> {
    match step {
        Step::Write { kind, .. } => Some(write_failure_text(kind, detail)),
        Step::Archive { .. } => None,
        Step::Record { .. } => Some(detail),
    }
}

/// Decides what the failure of a step means: the text with which the whole
/// operation fails, or nothing where the step's failure is passed over and
/// the next step follows.
pub fn step_failure(step: &PersistStep, detail: &str) -> (r: Option<String>)
    ensures
        text_view(r) == failure_of(step@, detail@),
{
    match step {
        PersistStep::Write { kind, .. } => {
            let mut message = String::new();
            match kind {
                AttachmentKind::Cv => {
                    message.append("CV yazılamadı: ");
                },
                AttachmentKind::Photo => {
                    message.append("Foto yazılamadı: ");
                },
            }
            message.append(detail);
            assert(message@ =~= write_failure_text(*kind, detail@));
            Some(message)
        },
        PersistStep::Archive { .. } => None,
        PersistStep::Record { .. } => Some(detail.to_string()),
    }
}

/// What recording a written file writes on the person's row: the path of
/// the file, and the name and MIME type that were handed in.
pub open spec fn record_writes(
    kind: AttachmentKind,
    path: Seq<char>,
    name: Option<String>,
    mime: Option<String>,
) -> Seq<Write> {
    match kind {
        AttachmentKind::Cv => seq![
            ("cv_path"@, SqlData::Text(path)),
            ("cv_name"@, text_or_null(name)),
            ("cv_mime"@, text_or_null(mime)),
        ],
        AttachmentKind::Photo => seq![
            ("photo_path"@, SqlData::Text(path)),
            ("photo_name"@, text_or_null(name)),
            ("photo_mime"@, text_or_null(mime)),
        ],
    }
}

/// The statement that records a written file on the row of the person with
/// identity `id`: one update of what [`record_writes`] lists, so that the
/// path on the row is the path of the file that was just written.
pub open spec fn record_of(
    id: i64,
    kind: AttachmentKind,
    path: Seq<char>,
    name: Option<String>,
    mime: Option<String>,
) -> StatementData {
    update_of(INTERNS_TABLE@, record_writes(kind, path, name, mime), id)
}

/// Makes the statement that records a written file on the row of the person
/// with identity `id`.
pub fn record_statement(
    id: i64,
    kind: AttachmentKind,
    path: &str,
    name: &Option<String>,
    mime: &Option<String>,
) -> (stmt: SqlStatement)
    ensures
        stmt@ == record_of(id, kind, path@, *name, *mime),
{
    let mut writes: Vec<ColumnWrite> = Vec::new();
    match kind {
        AttachmentKind::Cv => {
            writes.push(ColumnWrite { column: "cv_path", value: SqlParam::Text(path.to_string()) });
            writes.push(ColumnWrite { column: "cv_name", value: optional_text_param(name) });
            writes.push(ColumnWrite { column: "cv_mime", value: optional_text_param(mime) });
        },
        AttachmentKind::Photo => {
            writes.push(
                ColumnWrite { column: "photo_path", value: SqlParam::Text(path.to_string()) },
            );
            writes.push(ColumnWrite { column: "photo_name", value: optional_text_param(name) });
            writes.push(ColumnWrite { column: "photo_mime", value: optional_text_param(mime) });
        },
    }
    assert(write_pairs(writes@) =~= record_writes(kind, path@, *name, *mime));
    render_update(INTERNS_TABLE, &writes, id)
}

} // verus!
