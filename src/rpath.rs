//! The path value and its operations.

use vstd::prelude::*;

use crate::system::{
    canonical, fs_exists, fs_is_dir, fs_is_file, fs_is_symlink, file_name, file_name_text,
    home_dir, parent, parent_text, path_eq, same_path, to_path_buf,
};
use crate::text::{extension_of, extension_text, is_absolute_text, join_text, joined, joined_all};

verus! {

/// Why an operation on a path could not give a result.
#[derive(Clone, Copy, Debug, PartialEq, Eq, Structural)]
pub enum PathError {
    /// The path has no final component (it is empty, a root, or ends in `..`).
    NoBasename,
    /// The path has no parent (it is empty or a root).
    NoParent,
    /// The home directory could not be found.
    EnvUnavailable,
}

/// A filesystem path, held as its text.
#[derive(Clone, Debug)]
pub struct RPath {
    path: String,
}

impl View for RPath {
    type V = Seq<char>;

    closed spec fn view(&self) -> Seq<char> {
        self.path@
    }
}

/// The path without its final component, with `name` joined in its place.
pub open spec fn with_basename_text(p: Seq<char>, name: Seq<char>) -> Option<Seq<char>> {
    match parent_text(p) {
        Some(d) => Some(joined(d, name)),
        None => None,
    }
}

/// The final component of the path, joined onto `dir`.
pub open spec fn with_dirname_text(p: Seq<char>, dir: Seq<char>) -> Option<Seq<char>> {
    match file_name_text(p) {
        Some(n) => Some(joined(dir, n)),
        None => None,
    }
}

impl RPath {
    /// The empty path.
    pub fn new() -> (r: RPath)
        ensures
            r@ == Seq::<char>::empty(),
    {
        RPath { path: String::new() }
    }

    /// The path with the given text.
    pub fn from(s: &str) -> (r: RPath)
        ensures
            r@ == s@,
    {
        RPath { path: String::from_str(s) }
    }

    /// A new path: this one with `p` appended. An absolute `p` replaces it.
    pub fn join(&self, p: &str) -> (r: RPath)
        ensures
            r@ == joined(self@, p@),
    {
        RPath { path: join_text(self.path.as_str(), p) }
    }

    /// Joins each of `ps` onto this path in turn.
    pub fn join_multiple(&mut self, ps: Vec<&str>)
        ensures
            final(self)@ == joined_all(old(self)@, ps@.map_values(|s: &str| s@)),
    {
        let ghost parts = ps@.map_values(|s: &str| s@);
        let mut acc = self.path.clone();
        let mut i: usize = 0;
        while i < ps.len()
            invariant
                i <= ps@.len(),
                parts == ps@.map_values(|s: &str| s@),
                acc@ == joined_all(self.path@, parts.subrange(0, i as int)),
            decreases ps@.len() - i,
        {
            proof {
                let pre = parts.subrange(0, i as int + 1);
                assert(pre.drop_last() =~= parts.subrange(0, i as int));
            }
            acc = join_text(acc.as_str(), ps[i]);
            i = i + 1;
        }
        assert(parts.subrange(0, ps@.len() as int) =~= parts);
        self.path = acc;
    }

    /// The final component of the path.
    pub fn basename(&self) -> (r: Result<String, PathError>)
        ensures
            match file_name_text(self@) {
                Some(n) => r matches Ok(b) && b@ == n,
                None => r == Err::<String, PathError>(PathError::NoBasename),
            },
    {
        match file_name(self.path.as_str()) {
            Some(n) => Ok(n),
            None => Err(PathError::NoBasename),
        }
    }

    /// A new path with the final component replaced by `name`.
    pub fn with_basename(&self, name: &str) -> (r: Result<RPath, PathError>)
        ensures
            match with_basename_text(self@, name@) {
                Some(t) => r matches Ok(q) && q@ == t,
                None => r == Err::<RPath, PathError>(PathError::NoParent),
            },
    {
        match self.dirname() {
            Ok(d) => Ok(d.join(name)),
            Err(e) => Err(e),
        }
    }

    /// The parent directory of the path.
    pub fn dirname(&self) -> (r: Result<RPath, PathError>)
        ensures
            match parent_text(self@) {
                Some(d) => r matches Ok(q) && q@ == d,
                None => r == Err::<RPath, PathError>(PathError::NoParent),
            },
    {
        match parent(self.path.as_str()) {
            Some(d) => Ok(RPath { path: d }),
            None => Err(PathError::NoParent),
        }
    }

    /// A new path: the final component of this one, under `dir`.
    pub fn with_dirname(&self, dir: &str) -> (r: Result<RPath, PathError>)
        ensures
            match with_dirname_text(self@, dir@) {
                Some(t) => r matches Ok(q) && q@ == t,
                None => r == Err::<RPath, PathError>(PathError::NoBasename),
            },
    {
        match self.basename() {
            Ok(b) => Ok(RPath::from(dir).join(b.as_str())),
            Err(e) => Err(e),
        }
    }

    /// What follows the last `.` of the final component, or the whole
    /// component when it has no `.`.
    pub fn extension(&self) -> (r: Result<String, PathError>)
        ensures
            match file_name_text(self@) {
                Some(n) => r matches Ok(x) && x@ == extension_of(n),
                None => r == Err::<String, PathError>(PathError::NoBasename),
            },
    {
        match self.basename() {
            Ok(b) => Ok(extension_text(b.as_str())),
            Err(e) => Err(e),
        }
    }

    /// The home directory as `found` gives it, or `EnvUnavailable` when
    /// none was found.
    pub fn home_from(found: Option<String>) -> (r: Result<RPath, PathError>)
        ensures
            match found {
                Some(h) => r matches Ok(q) && q@ == h@,
                None => r == Err::<RPath, PathError>(PathError::EnvUnavailable),
            },
    {
        match found {
            Some(h) => Ok(RPath { path: h }),
            None => Err(PathError::EnvUnavailable),
        }
    }

    /// The current user's home directory, read from the environment.
    pub fn gethomedir() -> (r: Result<RPath, PathError>)
        ensures
            r matches Err(e) ==> e == PathError::EnvUnavailable,
            r matches Ok(h) ==> h@.len() > 0,
    {
        RPath::home_from(home_dir())
    }

    /// The path as `canonical` gives it when there is one, else this path
    /// unchanged.
    pub fn expand_with(&self, canonical: Option<String>) -> (r: RPath)
        ensures
            match canonical {
                Some(c) => r@ == c@,
                None => r@ == self@,
            },
    {
        match canonical {
            Some(c) => RPath { path: c },
            None => self.clone_path(),
        }
    }

    /// The canonical absolute form of the path, read from the disk; the
    /// path unchanged when it does not exist or cannot be resolved.
    pub fn expand(&self) -> (r: RPath)
        ensures
            r@ == self@ || is_absolute_text(r@),
    {
        self.expand_with(canonical(self.path.as_str()))
    }

    /// Makes the path empty.
    pub fn clear(&mut self)
        ensures
            final(self)@ == Seq::<char>::empty(),
    {
        self.path = String::new();
    }

    /// The path as std's owned path type.
    pub fn convert_to_pathbuf(&self) -> std::path::PathBuf {
        to_path_buf(self.path.as_str())
    }

    /// The path as text.
    pub fn convert_to_string(&self) -> (r: String)
        ensures
            r@ == self@,
    {
        self.path.clone()
    }

    /// Whether the path exists on the disk now.
    pub fn exists_on_disk(&self) -> bool {
        fs_exists(self.path.as_str())
    }

    /// Whether the path names a directory on the disk now.
    pub fn is_dir(&self) -> bool {
        fs_is_dir(self.path.as_str())
    }

    /// Whether the path starts at the root.
    pub fn is_absolute(&self) -> (r: bool)
        ensures
            r == is_absolute_text(self@),
    {
        self.path.as_str().unicode_len() > 0 && self.path.as_str().get_char(0) == '/'
    }

    /// Whether the path names a regular file on the disk now.
    pub fn is_file(&self) -> bool {
        fs_is_file(self.path.as_str())
    }

    /// Whether the path does not start at the root.
    pub fn is_relative(&self) -> (r: bool)
        ensures
            r == !is_absolute_text(self@),
    {
        !self.is_absolute()
    }

    /// Whether the path is a symbolic link on the disk now.
    pub fn is_symlink(&self) -> bool {
        fs_is_symlink(self.path.as_str())
    }

    fn clone_path(&self) -> (r: RPath)
        ensures
            r@ == self@,
    {
        RPath { path: self.path.clone() }
    }
}

impl PartialEq for RPath {
    fn eq(&self, o: &RPath) -> (r: bool) {
        path_eq(self.path.as_str(), o.path.as_str())
    }
}

impl vstd::std_specs::cmp::PartialEqSpecImpl for RPath {
    open spec fn obeys_eq_spec() -> bool {
        true
    }

    open spec fn eq_spec(&self, o: &RPath) -> bool {
        same_path(self@, o@)
    }
}

impl Eq for RPath {

}

} // verus!
