//! Access to the files that a Hurl file names, relative to a base directory.
use vstd::prelude::*;

use std::path::Path;

use crate::primitive::Filename;

verus! {

/// The bytes of a read result.
pub open spec fn read_view(read: Result<Vec<u8>, ()>) -> Result<Seq<u8>, ()> {
    match read {
        Ok(data) => Ok(data@),
        Err(_) => Err(()),
    }
}

/// Access to the files named in a Hurl file. The runner only reads files through it; users
/// implement it over a file system or over files held in memory.
///
/// Each impl says, by three relations over file names, what its methods may answer: a file
/// system can change between two calls, so an answer is one that the relation admits. An impl
/// that does not give a relation admits every answer.
pub trait DirectoryContext {
    /// Whether `found` may answer whether the file `name` exists.
    open spec fn exists_outcome(&self, name: Seq<char>, found: bool) -> bool {
        true
    }

    /// Whether `read` may be what reading the file `name` gives (`Err` when it cannot be
    /// opened or read).
    open spec fn read_outcome(&self, name: Seq<char>, read: Result<Seq<u8>, ()>) -> bool {
        true
    }

    /// Whether `accessed` may be the name under which the file `name` is accessed (reported in
    /// errors).
    open spec fn accessed_outcome(&self, name: Seq<char>, accessed: Seq<char>) -> bool {
        true
    }

    /// Whether the file exists.
    fn file_exists(&self, filename: &Filename) -> (found: bool)
        ensures
            self.exists_outcome(filename.value@, found),
    ;

    /// The whole content of the file, or `Err` when it cannot be opened or read.
    fn open(&self, filename: &Filename) -> (read: Result<Vec<u8>, ()>)
        ensures
            self.read_outcome(filename.value@, read_view(read)),
    ;

    /// The name of the file as it is accessed (reported in errors).
    fn get_absolute_filename(&self, filename: &Filename) -> (s: String)
        ensures
            self.accessed_outcome(filename.value@, s@),
    ;
}

/// Whether `std::path::Path::is_absolute` holds of the path.
pub uninterp spec fn path_is_absolute(path: Seq<char>) -> bool;

/// The path that `std::path::Path::join` gives for `base` joined with `path`.
pub uninterp spec fn path_join(base: Seq<char>, path: Seq<char>) -> Seq<char>;

/// Whether a path holds no slash, backslash nor colon: no root and no drive on any platform.
pub open spec fn is_bare_name(path: Seq<char>) -> bool {
    !path.contains('/') && !path.contains('\\') && !path.contains(':')
}

/// Calls `std::path::Path::is_absolute` on `path`.
///
/// The result is named `path_is_absolute` of the path. What makes a path absolute depends on the
/// platform (a root on Unix, a drive or share with a root on Windows) and is left unsaid, but for
/// one case that holds on every platform: a path with no slash, backslash nor colon has neither
/// root nor drive, so it is not absolute.
#[verifier::external_body]
fn is_absolute(path: &str) -> (r: bool)
    ensures
        r == path_is_absolute(path@),
        is_bare_name(path@) ==> !r,
{
    Path::new(path).is_absolute()
}

/// Calls `std::path::Path::join` on `base` and `path`, as text.
///
/// The result is named `path_join` of the two paths. Its documentation states that an absolute
/// `path` replaces `base`, which is stated here; how a relative path is joined (the separator
/// of the platform) is left unsaid. A path joined from two texts is text, so `to_str` always
/// succeeds.
#[verifier::external_body]
fn join(base: &str, path: &str) -> (r: String)
    ensures
        r@ == path_join(base@, path@),
        path_is_absolute(path@) ==> r@ == path@,
{
    Path::new(base).join(path).to_str().unwrap().to_owned()
}

/// The name of `path` in the file system for the directory `base`: itself when it is absolute,
/// else joined to `base`.
pub open spec fn absolute_filename(base: Seq<char>, path: Seq<char>) -> Seq<char> {
    if path_is_absolute(path) {
        path
    } else {
        path_join(base, path)
    }
}

/// The files of a directory of the file system, named relative to it.
#[derive(Clone, Debug)]
pub struct FsDirectoryContext {
    base_dir: String,
}

impl FsDirectoryContext {
    /// The directory that relative file names start from.
    pub closed spec fn base(&self) -> Seq<char> {
        self.base_dir@
    }

    /// Creates the context of the directory `base_dir`.
    pub fn new(base_dir: String) -> (c: FsDirectoryContext)
        ensures
            c.base() == base_dir@,
    {
        FsDirectoryContext { base_dir }
    }

    /// The directory that relative file names start from.
    pub fn base_dir(&self) -> (s: &str)
        ensures
            s@ == self.base(),
    {
        self.base_dir.as_str()
    }

    /// The name of `filename` in the file system: itself when it is absolute, else joined to the
    /// base directory.
    pub fn get_absolute_filename(&self, filename: &Filename) -> (s: String)
        ensures
            s@ == absolute_filename(self.base(), filename.value@),
            is_bare_name(filename.value@) ==> s@ == path_join(self.base(), filename.value@),
    {
        let f = filename.value.as_str();
        if is_absolute(f) {
            filename.value.clone()
        } else {
            join(self.base_dir.as_str(), f)
        }
    }
}

} // verus!
