//! The names of the files and folders kept beside the database.

use vstd::prelude::*;
use vstd::std_specs::iter::IteratorSpec;
use crate::slug::{slug_of, slug_tr};
use crate::text::{decimal_text, push_decimal};

verus! {

/// The file that holds the database, inside the application's data folder.
pub const DB_FILE_NAME: &'static str = "interns.db";

/// The folder on the desktop under which every attachment is kept.
pub const STORAGE_ROOT_NAME: &'static str = "InternTracker";

/// The folder, under the storage root, that holds one folder for each
/// person.
pub const PERSONS_DIR_NAME: &'static str = "interns";

/// The flat folder, under the storage root, that holds a copy of every CV.
pub const CV_ARCHIVE_DIR_NAME: &'static str = "CV";

/// The extension of an archived CV whose file name has none.
pub const DEFAULT_EXTENSION: &'static str = "bin";

/// The name of a person's folder: the identity, the slug of the given name
/// and the slug of the family name, joined by underscores.
pub open spec fn person_dir_text(id: int, first: Seq<char>, last: Seq<char>) -> Seq<char> {
    decimal_text(id) + "_"@ + slug_of(first) + "_"@ + slug_of(last)
}

/// The name of a CV in the flat archive: the name of the person's folder, a
/// dot, and the extension of the file as it was handed in, `bin` where it
/// has none.
pub open spec fn cv_archive_text(
    id: int,
    first: Seq<char>,
    last: Seq<char>,
    extension: Option<Seq<char>>,
) -> Seq<char> {
    person_dir_text(id, first, last) + "."@ + (match extension {
        Some(e) => e,
        None => DEFAULT_EXTENSION@,
    })
}

/// The name of the folder of the person with identity `id`.
pub fn person_dir_name(id: i64, first: &str, last: &str) -> (name: String)
    ensures
        name@ == person_dir_text(id as int, first@, last@),
{
    let mut name = String::new();
    push_decimal(&mut name, id);
    name.append("_");
    name.append(slug_tr(first).as_str());
    name.append("_");
    name.append(slug_tr(last).as_str());
    assert(name@ =~= person_dir_text(id as int, first@, last@));
    name
}

/// The content of an optional extension.
pub open spec fn extension_view(extension: Option<&str>) -> Option<Seq<char>> {
    match extension {
        Some(e) => Some(e@),
        None => None,
    }
}

/// The name under which the CV of the person with identity `id` is archived,
/// given the extension of the file as it was handed in.
pub fn cv_archive_name(id: i64, first: &str, last: &str, extension: Option<&str>) -> (name: String)
    ensures
        name@ == cv_archive_text(id as int, first@, last@, extension_view(extension)),
{
    let mut name = person_dir_name(id, first, last);
    name.append(".");
    match extension {
        Some(e) => {
            name.append(e);
        },
        None => {
            name.append(DEFAULT_EXTENSION);
        },
    }
    assert(name@ =~= cv_archive_text(id as int, first@, last@, extension_view(extension)));
    name
}

/// One character of a path as a database address writes it: a slash for a
/// backslash, and every other character as it is.
pub open spec fn url_char(c: char) -> char {
    if c == '\\' {
        '/'
    } else {
        c
    }
}

/// The address of the database file at `path`: `sqlite:` and the path with
/// slashes for its backslashes.
pub open spec fn database_url_text(path: Seq<char>) -> Seq<char> {
    "sqlite:"@ + path.map_values(|c: char| url_char(c))
}

/// The address under which the database file at `path` is registered.
pub fn database_url(path: &str) -> (url: String)
    ensures
        url@ == database_url_text(path@),
{
    let mut url = String::new();
    url.append("sqlite:");
    let ghost mapped = path@.map_values(|c: char| url_char(c));
    let ghost mut done: int = 0;
    let mut it = path.chars();
    loop
        invariant
            0 <= done <= path@.len(),
            done + it.remaining().len() == path@.len(),
            it.remaining() == path@.subrange(done, path@.len() as int),
            mapped == path@.map_values(|c: char| url_char(c)),
            url@ == "sqlite:"@ + mapped.subrange(0, done),
        ensures
            done == path@.len(),
            url@ == "sqlite:"@ + mapped.subrange(0, done),
        decreases path@.len() - done,
    {
        match it.next() {
            Some(c) => {
                if c == '\\' {
                    url.push('/');
                } else {
                    url.push(c);
                }
                proof {
                    assert(mapped.subrange(0, done + 1) =~= mapped.subrange(0, done).push(
                        url_char(c),
                    ));
                    done = done + 1;
                    assert(it.remaining() =~= path@.subrange(done, path@.len() as int));
                }
            },
            None => {
                break ;
            },
        }
    }
    assert(mapped.subrange(0, done) =~= mapped);
    url
}

/// The place of the last dot of a name, counted from zero, and -1 for a name
/// without a dot.
pub open spec fn last_dot(name: Seq<char>) -> int
    decreases name.len(),
{
    if name.len() == 0 {
        -1
    } else if name.last() == '.' {
        name.len() - 1
    } else {
        last_dot(name.drop_last())
    }
}

/// The extension of a file name: what follows its last dot. A name without
/// a dot has none, and neither has a name whose only dot is its first
/// character.
pub open spec fn extension_of(name: Seq<char>) -> Option<Seq<char>> {
    let dot = last_dot(name);
    if dot <= 0 {
        None
    } else {
        Some(name.subrange(dot + 1, name.len() as int))
    }
}

/// Whether a name is the name of a file in its folder, and no path: it holds
/// no slash, no backslash and no colon, and it is not the name `..` of the
/// folder above.
pub open spec fn is_plain_name(name: Seq<char>) -> bool {
    &&& !name.contains('/')
    &&& !name.contains('\\')
    &&& !name.contains(':')
    &&& name != seq!['.', '.']
}

/// The extension of a file name, as `Path::extension` of the standard
/// library tells it. Two things are claimed of its answer: a name without a
/// dot has no extension, and a plain name has the extension of
/// [`extension_of`]. Of a name that holds a path nothing more is claimed.
#[verifier::external_body]
pub(crate) fn path_extension(file_name: &str) -> (extension: Option<&str>)
    ensures
        !file_name@.contains('.') ==> extension is None,
        is_plain_name(file_name@) ==> extension_view(extension) == extension_of(file_name@),
{
    std::path::Path::new(file_name).extension().and_then(|e| e.to_str())
}

/// The name under which the CV of the person with identity `id` is archived,
/// given the name of the file as it was handed in: the archive name of
/// [`cv_archive_text`] for the extension that the file name has. For a plain
/// name that is the extension of [`extension_of`], and for a name without a
/// dot it is none.
pub fn cv_archive_name_for(id: i64, first: &str, last: &str, file_name: &str) -> (name: String)
    ensures
        exists|extension: Option<Seq<char>>|
            name@ == #[trigger] cv_archive_text(id as int, first@, last@, extension),
        !file_name@.contains('.') ==> name@ == cv_archive_text(id as int, first@, last@, None),
        is_plain_name(file_name@) ==> name@ == cv_archive_text(
            id as int,
            first@,
            last@,
            extension_of(file_name@),
        ),
{
    let extension = path_extension(file_name);
    let name = cv_archive_name(id, first, last, extension);
    assert(name@ == cv_archive_text(id as int, first@, last@, extension_view(extension)));
    name
}

} // verus!
