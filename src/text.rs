//! Path text: how components are joined, and how a file name splits
//! into its extension.

use vstd::prelude::*;

verus! {

/// A path is absolute when it starts at the root.
pub open spec fn is_absolute_text(p: Seq<char>) -> bool {
    p.len() > 0 && p[0] == '/'
}

/// `part` appended to `base`: an absolute `part` replaces `base`;
/// otherwise a separator goes between them unless `base` is empty or
/// already ends with one.
pub open spec fn joined(base: Seq<char>, part: Seq<char>) -> Seq<char> {
    if is_absolute_text(part) {
        part
    } else if base.len() == 0 || base.last() == '/' {
        base + part
    } else {
        base + seq!['/'] + part
    }
}

/// The parts joined onto `base` one after another, first to last.
pub open spec fn joined_all(base: Seq<char>, parts: Seq<Seq<char>>) -> Seq<char>
    decreases parts.len(),
{
    if parts.len() == 0 {
        base
    } else {
        joined(joined_all(base, parts.drop_last()), parts.last())
    }
}

/// What follows the last `.` of a file name, or the whole name when it
/// has no `.`.
pub open spec fn extension_of(name: Seq<char>) -> Seq<char>
    decreases name.len(),
{
    if name.len() == 0 {
        name
    } else if name.last() == '.' {
        Seq::empty()
    } else {
        extension_of(name.drop_last()).push(name.last())
    }
}

/// Appends `part` to `base` as a path component.
pub fn join_text(base: &str, part: &str) -> (r: String)
    ensures
        r@ == joined(base@, part@),
{
    let plen = part.unicode_len();
    if plen > 0 && part.get_char(0) == '/' {
        return String::from_str(part);
    }
    let blen = base.unicode_len();
    let mut r = String::from_str(base);
    if blen > 0 && base.get_char(blen - 1) != '/' {
        proof {
            reveal_strlit("/");
        }
        r.append("/");
    }
    r.append(part);
    r
}

/// The extension of a file name: what follows its last `.`, or the whole
/// name when it has none.
pub fn extension_text(name: &str) -> (r: String)
    ensures
        r@ == extension_of(name@),
{
    let n = name.unicode_len();
    let mut start: usize = 0;
    let mut i: usize = 0;
    while i < n
        invariant
            n == name@.len(),
            start <= i <= n,
            extension_of(name@.subrange(0, i as int)) == name@.subrange(start as int, i as int),
        decreases n - i,
    {
        let c = name.get_char(i);
        proof {
            let pre = name@.subrange(0, i as int + 1);
            assert(pre.drop_last() =~= name@.subrange(0, i as int));
            assert(pre.last() == c);
            assert(name@.subrange(start as int, i as int + 1) =~= name@.subrange(
                start as int,
                i as int,
            ).push(c));
        }
        if c == '.' {
            start = i + 1;
            assert(name@.subrange(start as int, start as int) =~= Seq::<char>::empty());
        }
        i = i + 1;
    }
    assert(name@.subrange(0, n as int) =~= name@);
    String::from_str(name.substring_char(start, n))
}

} // verus!
