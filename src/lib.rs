//! A path value with a small fluent API: joining, taking a path apart,
//! and asking the filesystem about it.
//!
//! Paths use the Unix syntax: `/` separates components and a path that
//! starts with `/` is absolute.

mod laws;
mod rpath;
mod system;
mod text;

pub use text::{extension_of, extension_text, is_absolute_text, join_text, joined, joined_all};
pub use rpath::{with_basename_text, with_dirname_text, PathError, RPath};
pub use system::{file_name_text, parent_text, same_path};
pub use laws::{lemma_join_multiple_empty, lemma_join_multiple_steps, lemma_with_basename_is_dirname_join};
