//! Where the program keeps its files below the data directory.

use vstd::prelude::*;
use std::path::{Path, PathBuf};

verus! {

/// A `std::path::PathBuf`, which Verus carries without looking inside.
#[verifier::external_type_specification]
#[verifier::external_body]
pub struct ExPathBuf(PathBuf);

/// A `std::path::Path`, the borrowed form of a path.
#[verifier::external_type_specification]
#[verifier::external_body]
pub struct ExPath(Path);

/// Name of the database file.
pub const DATABASE_FILE: &'static str = "app.sqlite";

/// Name of the settings file.
pub const SETTINGS_FILE: &'static str = "settings.json";

/// Name of the directory of images.
pub const IMAGES_DIR: &'static str = "images";

/// What `Path::join` makes of a path and a text: the path with the text
/// adjoined.
pub uninterp spec fn joined(dir: PathBuf, name: Seq<char>) -> PathBuf;

/// What `Path::to_path_buf` makes of a borrowed path: the same path, owned.
pub uninterp spec fn owned_path(path: &Path) -> PathBuf;

/// The last component of a path, where it is a normal one that is valid
/// Unicode: what `Path::file_name` gives and `OsStr::to_str` reads.
pub uninterp spec fn file_name_of(path: PathBuf) -> Option<Seq<char>>;

/// The text that `Path::display` shows a path as.
pub uninterp spec fn shown(path: PathBuf) -> Seq<char>;

/// Whether a text names one file or directory: it is not empty, holds no
/// separator and no colon, and is neither `.` nor `..`.
pub open spec fn is_plain_name(name: Seq<char>) -> bool {
    &&& name.len() > 0
    &&& forall|i: int|
        0 <= i < name.len() ==> #[trigger] name[i] != '/' && name[i] != '\\' && name[i] != ':'
    &&& name != seq!['.']
    &&& name != seq!['.', '.']
}

/// `Path::join`: the path with the text adjoined. Where the text is one
/// plain name, it is the new path's file name.
#[verifier::external_body]
pub(crate) fn join(dir: &PathBuf, name: &str) -> (path: PathBuf)
    ensures
        path == joined(*dir, name@),
        is_plain_name(name@) ==> file_name_of(path) == Some(name@),
{
    dir.join(name)
}

/// `Path::to_path_buf`: the borrowed path, owned.
#[verifier::external_body]
fn to_path_buf(path: &Path) -> (owned: PathBuf)
    ensures
        owned == owned_path(path),
{
    path.to_path_buf()
}

/// `Path::display`, written out: the text that shows the path.
#[verifier::external_body]
pub(crate) fn display_text(path: &PathBuf) -> (text: String)
    ensures
        text@ == shown(*path),
{
    path.display().to_string()
}

/// The path of the database file: `app.sqlite` in the data directory.
pub fn db_path(data_dir: &PathBuf) -> (path: PathBuf)
    ensures
        path == joined(*data_dir, DATABASE_FILE@),
        file_name_of(path) == Some(DATABASE_FILE@),
{
    proof {
        reveal_strlit("app.sqlite");
        assert(DATABASE_FILE@[0] == 'a');
        assert(DATABASE_FILE@.len() == 10);
    }
    join(data_dir, DATABASE_FILE)
}

/// The path of the settings file: `settings.json` in the data directory.
pub fn settings_path(data_dir: &Path) -> (path: PathBuf)
    ensures
        path == joined(owned_path(data_dir), SETTINGS_FILE@),
        file_name_of(path) == Some(SETTINGS_FILE@),
{
    proof {
        reveal_strlit("settings.json");
        assert(SETTINGS_FILE@[0] == 's');
        assert(SETTINGS_FILE@.len() == 13);
    }
    let dir = to_path_buf(data_dir);
    join(&dir, SETTINGS_FILE)
}

/// The directory of an entry's images below a data directory.
pub open spec fn images_dir_of(data_root: PathBuf, entry_id: Seq<char>) -> PathBuf {
    joined(joined(data_root, IMAGES_DIR@), entry_id)
}

/// The directory in which an entry's images are kept:
/// `images/<entry id>` below the data directory.
pub fn images_dir(data_root: &PathBuf, entry_id: &str) -> (dir: PathBuf)
    ensures
        dir == images_dir_of(*data_root, entry_id@),
{
    let images = join(data_root, IMAGES_DIR);
    join(&images, entry_id)
}

/// The file of an image in the directory of its entry.
pub fn image_file(data_root: &PathBuf, entry_id: &str, file_name: &str) -> (path: PathBuf)
    ensures
        path == joined(images_dir_of(*data_root, entry_id@), file_name@),
{
    let dir = images_dir(data_root, entry_id);
    join(&dir, file_name)
}

} // verus!
