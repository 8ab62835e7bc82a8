//! Transformations of slash-separated entry paths, as the archive codec and
//! the symlink builder need them: stripping the single wrapping directory of
//! a release archive, re-rooting a named subdirectory, taking base name and
//! parent directory.

use vstd::prelude::*;

use crate::text::{
    concat_chars, contains_at, contains_chars, contains_seq, copy_range, ends_with,
    ends_with_chars, find_first, find_first_char, find_last_char, first_occurrence,
    lemma_first_occurrence, occurs_at, str_to_chars,
};

verus! {

/// The path with its first component removed: everything after the first
/// slash. A path without a slash, or with nothing after its only slash, is
/// returned unchanged.
pub open spec fn strip_top(p: Seq<char>) -> Seq<char> {
    match p.index_of_first('/') {
        Some(i) => if i + 1 < p.len() {
            p.subrange(i + 1, p.len() as int)
        } else {
            p
        },
        None => p,
    }
}

/// The characters after the last slash; the whole path if it has no slash.
pub open spec fn base_name(p: Seq<char>) -> Seq<char> {
    match p.index_of_last('/') {
        Some(i) => p.subrange(i + 1, p.len() as int),
        None => p,
    }
}

/// The characters before the last slash; empty if the path has no slash, a
/// single slash if the last slash is the first character.
pub open spec fn parent_dir(p: Seq<char>) -> Seq<char> {
    match p.index_of_last('/') {
        Some(i) => if i == 0 {
            seq!['/']
        } else {
            p.subrange(0, i)
        },
        None => Seq::empty(),
    }
}

/// The delimited occurrence `/<segment>/` searched for by sub-tree
/// extraction.
pub open spec fn seg_pattern(segment: Seq<char>) -> Seq<char> {
    seq!['/'] + segment + seq!['/']
}

/// The part of the path after the first occurrence of `/<segment>/`:
/// the entry's path relative to the named subdirectory. `None` if the path
/// has no such delimited segment.
pub open spec fn subtree_suffix(p: Seq<char>, segment: Seq<char>) -> Option<Seq<char>> {
    match first_occurrence(p, seg_pattern(segment)) {
        Some(i) => Some(p.subrange(i + seg_pattern(segment).len(), p.len() as int)),
        None => None,
    }
}

/// Removes the single wrapping directory from an entry path.
pub fn strip_top_component(p: &Vec<char>) -> (r: Vec<char>)
    ensures
        r@ == strip_top(p@),
{
    proof {
        p@.index_of_first_ensures('/');
    }
    let n = p.len();
    match find_first_char(p, '/') {
        Some(i) => {
            if i + 1 < n {
                copy_range(p, i + 1, n)
            } else {
                clone_chars(p)
            }
        },
        None => clone_chars(p),
    }
}

/// The base name of an entry path.
pub fn base_name_of(p: &Vec<char>) -> (r: Vec<char>)
    ensures
        r@ == base_name(p@),
{
    proof {
        p@.index_of_last_ensures('/');
    }
    let n = p.len();
    match find_last_char(p, '/') {
        Some(i) => copy_range(p, i + 1, n),
        None => clone_chars(p),
    }
}

/// The parent directory of a path.
pub fn parent_dir_of(p: &Vec<char>) -> (r: Vec<char>)
    ensures
        r@ == parent_dir(p@),
{
    proof {
        p@.index_of_last_ensures('/');
    }
    match find_last_char(p, '/') {
        Some(i) => {
            if i == 0 {
                let mut r: Vec<char> = Vec::new();
                r.push('/');
                proof {
                    assert(r@ =~= seq!['/']);
                }
                r
            } else {
                copy_range(p, 0, i)
            }
        },
        None => Vec::new(),
    }
}

/// The path relative to the first delimited occurrence of the segment.
pub fn subtree_suffix_of(p: &Vec<char>, segment: &Vec<char>) -> (r: Option<Vec<char>>)
    ensures
        match r {
            Some(v) => subtree_suffix(p@, segment@) == Some(v@),
            None => subtree_suffix(p@, segment@) is None,
        },
{
    let mut pat: Vec<char> = Vec::new();
    pat.push('/');
    proof {
        assert(pat@ =~= seq!['/']);
    }
    let mut pat = concat_chars(&pat, segment);
    pat.push('/');
    proof {
        assert(pat@ =~= seg_pattern(segment@));
    }
    match find_first(p, &pat) {
        Some(i) => {
            let n = p.len();
            proof {
                lemma_first_occurrence(p@, pat@);
                assert(contains_at(p@, pat@, i as int));
            }
            Some(copy_range(p, i + pat.len(), n))
        },
        None => None,
    }
}

/// Copies a character vector.
pub fn clone_chars(p: &Vec<char>) -> (r: Vec<char>)
    ensures
        r@ == p@,
{
    copy_range(p, 0, p.len())
}

/// A path that stays under the directory it is written beneath: it is
/// relative — it does not begin at the root — and no segment of it is the
/// parent-directory step.
pub open spec fn safe_rel_path(p: Seq<char>) -> bool {
    &&& !(p.len() > 0 && p[0] == '/')
    &&& p != ".."@
    &&& !contains_at(p, "../"@, 0)
    &&& !ends_with(p, "/.."@)
    &&& !contains_seq(p, "/../"@)
}

/// Whether a planned path is safe to write beneath its target directory.
pub fn is_safe_rel_path(p: &Vec<char>) -> (r: bool)
    ensures
        r == safe_rel_path(p@),
{
    if p.len() > 0 && p[0] == '/' {
        return false;
    }
    let dotdot = str_to_chars("..");
    if p.len() == dotdot.len() && eq_prefix(p, &dotdot) {
        return false;
    }
    if occurs_at(p, &str_to_chars("../"), 0) {
        return false;
    }
    if ends_with_chars(p, &str_to_chars("/..")) {
        return false;
    }
    if contains_chars(p, &str_to_chars("/../")) {
        return false;
    }
    true
}

/// Whether the second vector is a prefix of the first, compared at the
/// start.
fn eq_prefix(p: &Vec<char>, q: &Vec<char>) -> (r: bool)
    requires
        p@.len() == q@.len(),
    ensures
        r == (p@ == q@),
{
    let ok = occurs_at(p, q, 0);
    proof {
        if ok {
            assert(p@.subrange(0, q@.len() as int) =~= p@);
        } else {
            if p@ == q@ {
                assert(p@.subrange(0, q@.len() as int) =~= q@);
            }
        }
    }
    ok
}

} // verus!
