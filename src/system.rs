//! What the library takes from std's path type, from the filesystem and
//! from the `dirs` crate. Each item here is believed, not proved.

use vstd::prelude::*;

use crate::text::is_absolute_text;

verus! {

#[verifier::external_type_specification]
#[verifier::external_body]
pub struct ExPathBuf(std::path::PathBuf);

/// The final component of a path, when it is a normal one.
pub uninterp spec fn file_name_text(p: Seq<char>) -> Option<Seq<char>>;

/// The path without its final component, when it has one.
pub uninterp spec fn parent_text(p: Seq<char>) -> Option<Seq<char>>;

/// Whether two paths have the same components.
pub uninterp spec fn same_path(a: Seq<char>, b: Seq<char>) -> bool;

/// Relies on `std::path::Path::file_name`: the final component if it is a
/// normal one, else `None`; a function of the text alone. A component is
/// a non-empty run of text between separators. A part of a `&str` is
/// valid UTF-8, so the conversion back to text loses nothing.
#[verifier::external_body]
pub(crate) fn file_name(p: &str) -> (r: Option<String>)
    ensures
        match r {
            Some(n) => file_name_text(p@) == Some(n@),
            None => file_name_text(p@) is None,
        },
        r matches Some(n) ==> n@.len() > 0 && !n@.contains('/'),
{
    match std::path::Path::new(p).file_name() {
        Some(n) => Some(n.to_string_lossy().into_owned()),
        None => None,
    }
}

/// Relies on `std::path::Path::parent`: the path without its final
/// component, or `None` for a root or an empty path; a function of the
/// text alone. The parent of a `&str` path is a prefix of it, valid UTF-8.
#[verifier::external_body]
pub(crate) fn parent(p: &str) -> (r: Option<String>)
    ensures
        match r {
            Some(d) => parent_text(p@) == Some(d@),
            None => parent_text(p@) is None,
        },
        r matches Some(d) ==> d@.len() <= p@.len() && d@ == p@.subrange(0, d@.len() as int),
{
    match std::path::Path::new(p).parent() {
        Some(d) => Some(d.to_string_lossy().into_owned()),
        None => None,
    }
}

/// Relies on `PartialEq for std::path::Path`, which compares components:
/// a function of the two texts, and equal texts have equal components.
#[verifier::external_body]
pub(crate) fn path_eq(a: &str, b: &str) -> (r: bool)
    ensures
        r == same_path(a@, b@),
        a@ == b@ ==> r,
{
    std::path::Path::new(a) == std::path::Path::new(b)
}

/// Relies on `std::path::Path::canonicalize`: on success, the absolute
/// form of the path with links resolved; it fails when the path does not
/// exist. What comes back depends on the disk. A form that is not valid
/// UTF-8 is given as `None`, since text cannot hold it.
#[verifier::external_body]
pub(crate) fn canonical(p: &str) -> (r: Option<String>)
    ensures
        r matches Some(c) ==> is_absolute_text(c@),
{
    match std::path::Path::new(p).canonicalize() {
        Ok(c) => c.into_os_string().into_string().ok(),
        Err(_) => None,
    }
}

/// Relies on `std::path::Path::exists`; the answer depends on the disk.
#[verifier::external_body]
pub(crate) fn fs_exists(p: &str) -> bool {
    std::path::Path::new(p).exists()
}

/// Relies on `std::path::Path::is_dir`; the answer depends on the disk.
#[verifier::external_body]
pub(crate) fn fs_is_dir(p: &str) -> bool {
    std::path::Path::new(p).is_dir()
}

/// Relies on `std::path::Path::is_file`; the answer depends on the disk.
#[verifier::external_body]
pub(crate) fn fs_is_file(p: &str) -> bool {
    std::path::Path::new(p).is_file()
}

/// Relies on `std::path::Path::is_symlink`; the answer depends on the disk.
#[verifier::external_body]
pub(crate) fn fs_is_symlink(p: &str) -> bool {
    std::path::Path::new(p).is_symlink()
}

/// Relies on `std::path::PathBuf::from` on a `&str`.
#[verifier::external_body]
pub(crate) fn to_path_buf(p: &str) -> std::path::PathBuf {
    std::path::PathBuf::from(p)
}

/// Relies on `dirs::home_dir`: the current user's home directory, or
/// `None` when it cannot be found; it depends on the environment. On Unix
/// an empty `$HOME` or an empty home field of the user database counts as
/// not found, so a home that is found is never empty. A home that is not
/// valid UTF-8 is given as `None`, since text cannot hold it.
#[verifier::external_body]
pub(crate) fn home_dir() -> (r: Option<String>)
    ensures
        r matches Some(h) ==> h@.len() > 0,
{
    match dirs::home_dir() {
        Some(h) => h.into_os_string().into_string().ok(),
        None => None,
    }
}

} // verus!
