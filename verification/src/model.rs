//! The records of the tracker: persons, their assignments and evaluations.

use vstd::prelude::*;

verus! {

/// A person as the first schema knew it: scalar fields and the two file paths.
#[derive(Clone, Debug, PartialEq, Eq)]
pub struct Intern {
    pub id: Option<i64>,
    pub first_name: String,
    pub last_name: String,
    pub school: String,
    pub department: String,
    pub start_date: String,
    pub end_date: String,
    pub status: String,
    pub contact: String,
    pub email: String,
    pub cv_path: Option<String>,
    pub photo_path: Option<String>,
}

/// A person as the list view shows it: scalar fields and the names of the
/// attachments, without their payloads.
#[derive(Clone, Debug, PartialEq, Eq)]
pub struct InternLite {
    pub id: Option<i64>,
    pub first_name: String,
    pub last_name: String,
    pub school: String,
    pub department: String,
    pub start_date: String,
    pub end_date: Option<String>,
    pub status: String,
    pub contact: String,
    pub email: String,
    pub cv_name: Option<String>,
    pub photo_name: Option<String>,
}

/// A person as a create or update request carries it: scalar fields, the two
/// paths on disk, and for each attachment its name, MIME type and bytes.
#[derive(Clone, Debug, PartialEq, Eq)]
pub struct InternPayload {
    pub id: Option<i64>,
    pub first_name: String,
    pub last_name: String,
    pub school: String,
    pub department: String,
    pub start_date: String,
    pub end_date: Option<String>,
    pub status: String,
    pub contact: String,
    pub email: String,
    pub cv_path: Option<String>,
    pub photo_path: Option<String>,
    pub cv_name: Option<String>,
    pub cv_mime: Option<String>,
    pub cv_blob: Option<Vec<u8>>,
    pub photo_name: Option<String>,
    pub photo_mime: Option<String>,
    pub photo_blob: Option<Vec<u8>>,
}

/// A task assigned to a person.
#[derive(Clone, Debug, PartialEq, Eq)]
pub struct Assignment {
    pub id: Option<i64>,
    pub intern_id: i64,
    pub project_type: String,
    pub task_description: String,
    pub due_date: String,
    pub status: String,
    pub file_path: Option<String>,
    pub created_at: Option<String>,
}

/// A scored note on a person.
#[derive(Clone, Debug, PartialEq, Eq)]
pub struct Evaluation {
    pub id: Option<i64>,
    pub intern_id: i64,
    pub label: String,
    pub score: i64,
    pub created_at: Option<String>,
}

/// The attachment pair of a person as the store holds it.
#[derive(Clone, Debug, PartialEq, Eq)]
pub struct InternFiles {
    pub cv_name: Option<String>,
    pub cv_mime: Option<String>,
    pub cv_blob: Option<Vec<u8>>,
    pub photo_name: Option<String>,
    pub photo_mime: Option<String>,
    pub photo_blob: Option<Vec<u8>>,
    pub cv_path: Option<String>,
    pub photo_path: Option<String>,
}

impl InternPayload {
    /// Whether the request carries anything for the CV: a name, a MIME type
    /// or bytes.
    pub open spec fn supplies_cv(&self) -> bool {
        self.cv_name is Some || self.cv_mime is Some || self.cv_blob is Some
    }

    /// Whether the request carries anything for the photo.
    pub open spec fn supplies_photo(&self) -> bool {
        self.photo_name is Some || self.photo_mime is Some || self.photo_blob is Some
    }

    /// Whether the request carries anything for the CV.
    pub fn has_cv_fields(&self) -> (b: bool)
        ensures
            b == self.supplies_cv(),
    {
        self.cv_name.is_some() || self.cv_mime.is_some() || self.cv_blob.is_some()
    }

    /// Whether the request carries anything for the photo.
    pub fn has_photo_fields(&self) -> (b: bool)
        ensures
            b == self.supplies_photo(),
    {
        self.photo_name.is_some() || self.photo_mime.is_some() || self.photo_blob.is_some()
    }
}

} // verus!
