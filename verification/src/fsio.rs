//! Trusted wrappers around the platform's path-resolution and directory
//! primitives.  Their results depend on the state of the filesystem, so no
//! contract pins them down; the verified logic takes what they return and
//! treats every outcome as possible, failing closed where it matters.

use vstd::prelude::*;

verus! {

/// Relies on `std::path::Path::canonicalize`: the OS resolves symlinks and
/// `.`/`..` segments and returns the absolute real form, or fails — among
/// other reasons, when the path does not exist.  A result that is not valid
/// UTF-8 is treated as a failure, so that resolution fails closed.
#[verifier::external_body]
pub(crate) fn canonicalize_path(p: &str) -> (r: Option<String>) {
    match std::path::Path::new(p).canonicalize() {
        Ok(c) => match c.to_str() {
            Some(s) => Some(s.to_string()),
            None => None,
        },
        Err(_) => None,
    }
}

/// Relies on `std::path::Path::exists`: whether the path points at an
/// existing entity on disk, with symlinks followed.
#[verifier::external_body]
pub(crate) fn path_exists(p: &str) -> (r: bool) {
    std::path::Path::new(p).exists()
}

/// Relies on `std::path::Path::is_dir`: whether the path exists on disk and
/// is a directory, with symlinks followed.
#[verifier::external_body]
pub(crate) fn path_is_dir(p: &str) -> (r: bool) {
    std::path::Path::new(p).is_dir()
}

/// Relies on `std::path::Path::read_dir` and `DirEntry::file_name`: the bare
/// final-component names of the directory's entries, in no promised order.
/// `read_dir` documents that the special entries `.` and `..` are not
/// yielded, and `file_name` that it returns the entry's bare file name with
/// no other path component — a directory entry's own name, which is never
/// empty and never contains a separator.  Any read error, or a name that is
/// not valid UTF-8, yields `None`.  The loop below drives the directory
/// iterator, whose every step is itself a filesystem call, so it cannot
/// stand outside this trusted body.
#[verifier::external_body]
pub(crate) fn read_dir_names(p: &str) -> (r: Option<Vec<String>>)
    ensures
        r is Some ==> forall|k: int|
            0 <= k < r->0@.len() ==> crate::paths::bare_name(#[trigger] r->0@[k]@),
{
    let rd = match std::path::Path::new(p).read_dir() {
        Ok(rd) => rd,
        Err(_) => return None,
    };
    let mut names: Vec<String> = Vec::new();
    for entry in rd {
        let e = match entry { Ok(e) => e, Err(_) => return None };
        match e.file_name().into_string() {
            Ok(name) => names.push(name),
            Err(_) => return None,
        }
    }
    Some(names)
}

} // verus!
