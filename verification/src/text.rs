//! Character-level utilities shared by the resolver and the archive codec:
//! lowercasing, substring search, prefix/suffix tests.
//!
//! All algorithms work on `Vec<char>` so that contracts can be stated over
//! `Seq<char>`, the view that `str` and `String` share.

use vstd::prelude::*;

verus! {

/// ASCII lowercasing of a single character; other characters are unchanged.
pub open spec fn lower_char(c: char) -> char {
    if 'A' <= c && c <= 'Z' {
        ((c as u8) + 32) as char
    } else {
        c
    }
}

/// ASCII lowercasing of a character sequence.
pub open spec fn lower(s: Seq<char>) -> Seq<char> {
    s.map_values(|c: char| lower_char(c))
}

/// `n` occurs in `h` starting at position `i`.
pub open spec fn contains_at(h: Seq<char>, n: Seq<char>, i: int) -> bool {
    0 <= i && i + n.len() <= h.len() && h.subrange(i, i + n.len()) == n
}

/// `n` occurs somewhere in `h`.
pub open spec fn contains_seq(h: Seq<char>, n: Seq<char>) -> bool {
    exists|i: int| contains_at(h, n, i)
}

/// `s` ends with `suffix`.
pub open spec fn ends_with(s: Seq<char>, suffix: Seq<char>) -> bool {
    suffix.len() <= s.len() && s.subrange(s.len() - suffix.len(), s.len() as int) == suffix
}

/// The characters of a string slice, as a vector.
pub fn str_to_chars(s: &str) -> (r: Vec<char>)
    ensures
        r@ == s@,
{
    let n = s.unicode_len();
    let mut r: Vec<char> = Vec::new();
    for i in 0..n
        invariant
            n == s@.len(),
            r@ == s@.subrange(0, i as int),
    {
        r.push(s.get_char(i));
        proof {
            assert(r@ =~= s@.subrange(0, i + 1));
        }
    }
    proof {
        assert(r@ =~= s@);
    }
    r
}

/// Builds the string of exactly the given characters.
///
/// Relies on `String: FromIterator<char>` of std: collecting chars yields
/// the string whose characters are that sequence, in order.
#[verifier::external_body]
pub fn chars_to_string(v: &Vec<char>) -> (r: String)
    ensures
        r@ == v@,
{
    v.iter().collect()
}

/// ASCII-lowercases one character.
pub fn lower_char_exec(c: char) -> (r: char)
    ensures
        r == lower_char(c),
{
    if 'A' <= c && c <= 'Z' {
        ((c as u8) + 32) as char
    } else {
        c
    }
}

/// ASCII-lowercases a character vector.
pub fn lower_chars(v: &Vec<char>) -> (r: Vec<char>)
    ensures
        r@ == lower(v@),
{
    let mut r: Vec<char> = Vec::new();
    let n = v.len();
    for i in 0..n
        invariant
            n == v@.len(),
            r@ == lower(v@.subrange(0, i as int)),
    {
        r.push(lower_char_exec(v[i]));
        proof {
            assert(r@ =~= lower(v@.subrange(0, i + 1)));
        }
    }
    proof {
        assert(v@.subrange(0, n as int) =~= v@);
    }
    r
}

/// Whether `n` occurs in `h` starting at `i`, without any precondition.
pub fn occurs_at(h: &Vec<char>, n: &Vec<char>, i: usize) -> (r: bool)
    ensures
        r == contains_at(h@, n@, i as int),
{
    if i <= h.len() && n.len() <= h.len() - i {
        matches_at(h, n, i)
    } else {
        false
    }
}

/// Whether `n` occurs in `h` starting exactly at `i`.
fn matches_at(h: &Vec<char>, n: &Vec<char>, i: usize) -> (r: bool)
    requires
        i + n@.len() <= h@.len(),
    ensures
        r == contains_at(h@, n@, i as int),
{
    let m = n.len();
    let hlen = h.len();
    for j in 0..m
        invariant
            i + n@.len() <= h@.len(),
            m == n@.len(),
            hlen == h@.len(),
            forall|k: int| 0 <= k < j ==> h@[i + k] == n@[k],
    {
        if h[i + j] != n[j] {
            proof {
                assert(h@.subrange(i as int, i + n@.len())[j as int] != n@[j as int]);
            }
            return false;
        }
    }
    proof {
        assert(h@.subrange(i as int, i + n@.len()) =~= n@);
    }
    true
}

/// Substring search: does `n` occur anywhere in `h`?
pub fn contains_chars(h: &Vec<char>, n: &Vec<char>) -> (r: bool)
    ensures
        r == contains_seq(h@, n@),
{
    if n.len() > h.len() {
        proof {
            assert(forall|i: int| !contains_at(h@, n@, i));
        }
        return false;
    }
    if n.len() == 0 {
        proof {
            assert(h@.subrange(0, 0) =~= n@);
            assert(contains_at(h@, n@, 0));
        }
        return true;
    }
    let end = h.len() - n.len() + 1;
    for i in 0..end
        invariant
            1 <= n@.len() <= h@.len(),
            end == h@.len() - n@.len() + 1,
            forall|k: int| 0 <= k < i ==> !contains_at(h@, n@, k),
    {
        if matches_at(h, n, i) {
            return true;
        }
    }
    proof {
        assert(forall|k: int| contains_at(h@, n@, k) ==> 0 <= k < end);
    }
    false
}

/// Suffix test on character vectors.
pub fn ends_with_chars(s: &Vec<char>, suffix: &Vec<char>) -> (r: bool)
    ensures
        r == ends_with(s@, suffix@),
{
    if suffix.len() > s.len() {
        return false;
    }
    let slen = s.len();
    let start = slen - suffix.len();
    let m = suffix.len();
    for j in 0..m
        invariant
            m == suffix@.len(),
            m <= s@.len(),
            slen == s@.len(),
            start == s@.len() - suffix@.len(),
            forall|k: int| 0 <= k < j ==> s@[start + k] == suffix@[k],
    {
        if s[start + j] != suffix[j] {
            proof {
                assert(s@.subrange(s@.len() - suffix@.len(), s@.len() as int)[j as int]
                    != suffix@[j as int]);
            }
            return false;
        }
    }
    proof {
        assert(s@.subrange(s@.len() - suffix@.len(), s@.len() as int) =~= suffix@);
    }
    true
}

/// Position of the first occurrence of `n` in `h`; `None` if it does not occur.
pub open spec fn first_occurrence(h: Seq<char>, n: Seq<char>) -> Option<int>
    decreases h.len(),
{
    if n.len() > h.len() {
        None
    } else if contains_at(h, n, 0) {
        Some(0int)
    } else if h.len() == 0 {
        None
    } else {
        match first_occurrence(h.drop_first(), n) {
            Some(i) => Some(i + 1),
            None => None,
        }
    }
}

/// `first_occurrence` returns the least position of an occurrence, and `None`
/// exactly when there is no occurrence.
pub proof fn lemma_first_occurrence(h: Seq<char>, n: Seq<char>)
    ensures
        match first_occurrence(h, n) {
            Some(i) => contains_at(h, n, i) && forall|j: int| 0 <= j < i ==> !contains_at(h, n, j),
            None => forall|j: int| !contains_at(h, n, j),
        },
    decreases h.len(),
{
    if n.len() > h.len() {
        assert(forall|j: int| !contains_at(h, n, j));
    } else if contains_at(h, n, 0) {
    } else if h.len() == 0 {
        assert(forall|j: int| !contains_at(h, n, j));
    } else {
        let t = h.drop_first();
        lemma_first_occurrence(t, n);
        assert forall|j: int| 1 <= j && contains_at(h, n, j) implies contains_at(t, n, j - 1) by {
            assert(t.subrange(j - 1, j - 1 + n.len() as int) =~= h.subrange(j, j + n.len() as int));
        }
        assert forall|j: int| 0 <= j && contains_at(t, n, j) implies contains_at(h, n, j + 1) by {
            assert(t.subrange(j, j + n.len() as int) =~= h.subrange(j + 1, j + 1 + n.len() as int));
        }
        match first_occurrence(t, n) {
            Some(i) => {
                assert(contains_at(h, n, i + 1));
            },
            None => {
                assert forall|j: int| !contains_at(h, n, j) by {
                    if contains_at(h, n, j) {
                        if j >= 1 {
                            assert(contains_at(t, n, j - 1));
                        }
                    }
                }
            },
        }
    }
}

/// First position at which `n` occurs in `h`, if any.
pub fn find_first(h: &Vec<char>, n: &Vec<char>) -> (r: Option<usize>)
    ensures
        match r {
            Some(i) => first_occurrence(h@, n@) == Some(i as int),
            None => first_occurrence(h@, n@) is None,
        },
{
    let r = find_first_quantified(h, n);
    proof {
        lemma_first_occurrence(h@, n@);
    }
    r
}

/// First position at which `n` occurs in `h`, characterized directly.
fn find_first_quantified(h: &Vec<char>, n: &Vec<char>) -> (r: Option<usize>)
    ensures
        match r {
            Some(i) => contains_at(h@, n@, i as int) && forall|k: int|
                0 <= k < i ==> !contains_at(h@, n@, k),
            None => forall|k: int| !contains_at(h@, n@, k),
        },
{
    if n.len() > h.len() {
        proof {
            assert(forall|i: int| !contains_at(h@, n@, i));
        }
        return None;
    }
    if n.len() == 0 {
        proof {
            assert(h@.subrange(0, 0) =~= n@);
            assert(contains_at(h@, n@, 0));
        }
        return Some(0);
    }
    let end = h.len() - n.len() + 1;
    for i in 0..end
        invariant
            1 <= n@.len() <= h@.len(),
            end == h@.len() - n@.len() + 1,
            forall|k: int| 0 <= k < i ==> !contains_at(h@, n@, k),
    {
        if matches_at(h, n, i) {
            return Some(i);
        }
    }
    proof {
        assert(forall|k: int| contains_at(h@, n@, k) ==> 0 <= k < end);
    }
    None
}

/// Last position at which the character `c` occurs in `v`, if any.
pub fn find_last_char(v: &Vec<char>, c: char) -> (r: Option<usize>)
    ensures
        match r {
            Some(i) => v@.index_of_last(c) == Some(i as int),
            None => v@.index_of_last(c) is None,
        },
{
    proof {
        v@.index_of_last_ensures(c);
    }
    let mut i: usize = v.len();
    while i > 0
        invariant
            i <= v@.len(),
            forall|k: int| i <= k < v@.len() ==> v@[k] != c,
            match v@.index_of_last(c) {
                Some(j) => 0 <= j < v@.len() && v@[j] == c && forall|k: int|
                    j < k < v@.len() ==> v@[k] != c,
                None => !v@.contains(c),
            },
        decreases i,
    {
        i = i - 1;
        if v[i] == c {
            return Some(i);
        }
    }
    proof {
        if v@.index_of_last(c) is Some {
            let j = v@.index_of_last(c)->Some_0;
            assert(v@[j] == c);
        }
    }
    None
}

/// First position at which the character `c` occurs in `v`, if any.
pub fn find_first_char(v: &Vec<char>, c: char) -> (r: Option<usize>)
    ensures
        match r {
            Some(i) => v@.index_of_first(c) == Some(i as int),
            None => v@.index_of_first(c) is None,
        },
{
    proof {
        v@.index_of_first_ensures(c);
    }
    let n = v.len();
    for i in 0..n
        invariant
            n == v@.len(),
            forall|k: int| 0 <= k < i ==> v@[k] != c,
            match v@.index_of_first(c) {
                Some(j) => 0 <= j < v@.len() && v@[j] == c && forall|k: int|
                    0 <= k < j ==> v@[k] != c,
                None => !v@.contains(c),
            },
    {
        if v[i] == c {
            return Some(i);
        }
    }
    proof {
        if v@.index_of_first(c) is Some {
            let j = v@.index_of_first(c)->Some_0;
            assert(v@[j] == c);
        }
    }
    None
}

/// Copies the range `[a, b)` of a character vector.
pub fn copy_range(v: &Vec<char>, a: usize, b: usize) -> (r: Vec<char>)
    requires
        a <= b <= v@.len(),
    ensures
        r@ == v@.subrange(a as int, b as int),
{
    let mut r: Vec<char> = Vec::new();
    for i in a..b
        invariant
            a <= b <= v@.len(),
            r@ == v@.subrange(a as int, i as int),
    {
        r.push(v[i]);
        proof {
            assert(r@ =~= v@.subrange(a as int, i + 1));
        }
    }
    r
}

/// Concatenates two character vectors.
pub fn concat_chars(a: &Vec<char>, b: &Vec<char>) -> (r: Vec<char>)
    ensures
        r@ == a@ + b@,
{
    let mut r: Vec<char> = Vec::new();
    let n = a.len();
    for i in 0..n
        invariant
            n == a@.len(),
            r@ == a@.subrange(0, i as int),
    {
        r.push(a[i]);
        proof {
            assert(r@ =~= a@.subrange(0, i + 1));
        }
    }
    proof {
        assert(r@ =~= a@);
    }
    let m = b.len();
    for i in 0..m
        invariant
            m == b@.len(),
            r@ == a@ + b@.subrange(0, i as int),
    {
        r.push(b[i]);
        proof {
            assert(r@ =~= a@ + b@.subrange(0, i + 1));
        }
    }
    proof {
        assert(r@ =~= a@ + b@);
    }
    r
}

} // verus!
