//! Laws that relate the operations on paths.

use vstd::prelude::*;

use crate::rpath::with_basename_text;
use crate::system::parent_text;
use crate::text::{joined, joined_all};

verus! {

/// Replacing the final component of a path that has a parent is the same
/// as joining the new name onto its parent.
pub proof fn lemma_with_basename_is_dirname_join(p: Seq<char>, name: Seq<char>)
    requires
        parent_text(p) is Some,
    ensures
        with_basename_text(p, name) == Some(joined(parent_text(p)->Some_0, name)),
{
}

/// Joining no components leaves a path as it was.
pub proof fn lemma_join_multiple_empty(p: Seq<char>)
    ensures
        joined_all(p, Seq::empty()) == p,
{
}

/// Joining components one by one is joining the first, then the rest.
pub proof fn lemma_join_multiple_steps(p: Seq<char>, parts: Seq<Seq<char>>)
    ensures
        parts.len() > 0 ==> joined_all(p, parts) == joined_all(joined(p, parts[0]), parts.drop_first()),
    decreases parts.len(),
{
    if parts.len() > 1 {
        let rest = parts.drop_last();
        lemma_join_multiple_steps(p, rest);
        assert(rest.drop_first() =~= parts.drop_first().drop_last());
        assert(rest[0] == parts[0]);
        assert(parts.drop_first().last() == parts.last());
        assert(joined_all(p, parts) == joined(joined_all(p, rest), parts.last()));
    } else if parts.len() == 1 {
        assert(parts.drop_last() =~= Seq::<Seq<char>>::empty());
        assert(parts.drop_first() =~= Seq::<Seq<char>>::empty());
        assert(parts.last() == parts[0]);
        assert(joined_all(p, parts) == joined(joined_all(p, parts.drop_last()), parts.last()));
    }
}

} // verus!
