//! Version-number parsing for process introspection: the "major.minor"
//! token taken from a C-library diagnostic line, and the version tag taken
//! from an editor's `--version` output.
//!
//! The grammar is a greedy left-to-right scan for maximal digit runs
//! separated by a dot, exactly as a version-number search would consume the
//! line; the C-library probe keeps the last such token, the editor probe
//! the first one preceded by the program's name.

use vstd::prelude::*;

use crate::text::{chars_to_string, contains_at, copy_range, find_first_char, occurs_at,
    str_to_chars};

verus! {

/// A decimal digit.
pub open spec fn is_digit(c: char) -> bool {
    '0' <= c && c <= '9'
}

/// The numeric value of a decimal digit; zero for any other character.
pub open spec fn digit_val(c: char) -> nat {
    if is_digit(c) {
        (c as int - '0' as int) as nat
    } else {
        0
    }
}

/// The end (exclusive) of the maximal digit run starting at `i`.
pub open spec fn run_end(s: Seq<char>, i: int) -> int
    decreases s.len() - i,
        when i <= s.len()
{
    if 0 <= i && i < s.len() && is_digit(s[i]) {
        run_end(s, i + 1)
    } else {
        i
    }
}

/// A digit run's end lies between its start and the end of the string, and
/// everything in between is a digit.
pub proof fn lemma_run_end(s: Seq<char>, i: int)
    requires
        0 <= i <= s.len(),
    ensures
        i <= run_end(s, i) <= s.len(),
        forall|k: int| i <= k < run_end(s, i) ==> is_digit(s[k]),
        run_end(s, i) < s.len() ==> !is_digit(s[run_end(s, i)]),
    decreases s.len() - i,
{
    if i < s.len() && is_digit(s[i]) {
        lemma_run_end(s, i + 1);
    }
}

/// The value of the digit run `[a, b)` read as a decimal number.
pub open spec fn digits_val(s: Seq<char>, a: int, b: int) -> nat
    decreases b - a,
        when a <= b
{
    if a < b {
        digits_val(s, a, b - 1) * 10 + digit_val(s[b - 1])
    } else {
        0
    }
}

/// The version token starting exactly at `i`: a maximal digit run, a dot,
/// and a maximal digit run. Yields the end of the token and both values.
pub open spec fn version_token_at(s: Seq<char>, i: int) -> Option<(int, nat, nat)> {
    if 0 <= i < s.len() && is_digit(s[i]) {
        let j = run_end(s, i);
        if j + 1 < s.len() && s[j] == '.' && is_digit(s[j + 1]) {
            let k = run_end(s, j + 1);
            Some((k, digits_val(s, i, j), digits_val(s, j + 1, k)))
        } else {
            None
        }
    } else {
        None
    }
}

/// A version token ends after its start and within the string.
pub proof fn lemma_version_token_at(s: Seq<char>, i: int)
    requires
        version_token_at(s, i) is Some,
    ensures
        i < version_token_at(s, i)->Some_0.0 <= s.len(),
{
    lemma_run_end(s, i);
    let j = run_end(s, i);
    lemma_run_end(s, j + 1);
}

/// The values of the last version token of a greedy left-to-right scan
/// beginning at `i`: at each position the scan takes the token starting
/// there, if any, and resumes after it; otherwise it advances one
/// character.
pub open spec fn last_version_token(s: Seq<char>, i: int) -> Option<(nat, nat)>
    decreases s.len() - i,
        when 0 <= i <= s.len()
        via last_version_token_decreases
{
    if 0 <= i < s.len() {
        match version_token_at(s, i) {
            Some((end, major, minor)) => match last_version_token(s, end) {
                Some(p) => Some(p),
                None => Some((major, minor)),
            },
            None => last_version_token(s, i + 1),
        }
    } else {
        None
    }
}

#[via_fn]
proof fn last_version_token_decreases(s: Seq<char>, i: int) {
    if 0 <= i < s.len() {
        if version_token_at(s, i) is Some {
            lemma_version_token_at(s, i);
        }
    }
}

/// Whether a character is a decimal digit.
pub fn is_digit_exec(c: char) -> (r: bool)
    ensures
        r == is_digit(c),
{
    '0' <= c && c <= '9'
}

/// The end of the maximal digit run starting at `i`.
fn run_end_exec(s: &Vec<char>, i: usize) -> (r: usize)
    requires
        i <= s@.len(),
    ensures
        r == run_end(s@, i as int),
        i <= r <= s@.len(),
    decreases s@.len() - i,
{
    proof {
        lemma_run_end(s@, i as int);
    }
    if i < s.len() && is_digit_exec(s[i]) {
        run_end_exec(s, i + 1)
    } else {
        i
    }
}

/// Parses the digit run `[a, b)` as a `u32`; `None` exactly when its value
/// does not fit.
fn parse_digits(s: &Vec<char>, a: usize, b: usize) -> (r: Option<u32>)
    requires
        a <= b <= s@.len(),
    ensures
        match r {
            Some(v) => v as nat == digits_val(s@, a as int, b as int),
            None => digits_val(s@, a as int, b as int) > u32::MAX,
        },
    decreases b - a,
{
    if a >= b {
        Some(0)
    } else {
        match parse_digits(s, a, b - 1) {
            Some(prefix) => {
                let c = s[b - 1];
                let d: u32 = if is_digit_exec(c) {
                    (c as u32) - ('0' as u32)
                } else {
                    0
                };
                proof {
                    assert(d as nat == digit_val(c));
                }
                let wide: u64 = (prefix as u64) * 10 + (d as u64);
                if wide > 0xFFFF_FFFFu64 {
                    None
                } else {
                    Some(wide as u32)
                }
            },
            None => {
                proof {
                    assert(digits_val(s@, a as int, b as int) == digits_val(
                        s@,
                        a as int,
                        b - 1,
                    ) * 10 + digit_val(s@[b - 1]));
                    assert(digits_val(s@, a as int, b - 1) * 10 >= digits_val(
                        s@,
                        a as int,
                        b - 1,
                    ));
                }
                None
            },
        }
    }
}

/// The version token at `i`, with each value given as a `u32` when it
/// fits.
fn token_at_exec(s: &Vec<char>, i: usize) -> (r: Option<(usize, Option<u32>, Option<u32>)>)
    requires
        i <= s@.len(),
    ensures
        match version_token_at(s@, i as int) {
            Some(t) => r is Some && {
                let (end, major, minor) = t;
                &&& r->Some_0.0 == end
                &&& match r->Some_0.1 {
                    Some(v) => v as nat == major,
                    None => major > u32::MAX,
                }
                &&& match r->Some_0.2 {
                    Some(v) => v as nat == minor,
                    None => minor > u32::MAX,
                }
            },
            None => r is None,
        },
{
    if i < s.len() && is_digit_exec(s[i]) {
        let j = run_end_exec(s, i);
        if j < s.len() && s[j] == '.' && j + 1 < s.len() && is_digit_exec(s[j + 1]) {
            let k = run_end_exec(s, j + 1);
            Some((k, parse_digits(s, i, j), parse_digits(s, j + 1, k)))
        } else {
            None
        }
    } else {
        None
    }
}

/// The last version token of the scan from `i`, with values as `u32` where
/// they fit.
fn last_token_from(s: &Vec<char>, i: usize) -> (r: Option<(Option<u32>, Option<u32>)>)
    requires
        i <= s@.len(),
    ensures
        match last_version_token(s@, i as int) {
            Some(t) => r is Some && {
                let (major, minor) = t;
                &&& match r->Some_0.0 {
                    Some(v) => v as nat == major,
                    None => major > u32::MAX,
                }
                &&& match r->Some_0.1 {
                    Some(v) => v as nat == minor,
                    None => minor > u32::MAX,
                }
            },
            None => r is None,
        },
    decreases s@.len() - i,
{
    if i < s.len() {
        match token_at_exec(s, i) {
            Some((end, major, minor)) => {
                proof {
                    lemma_version_token_at(s@, i as int);
                }
                match last_token_from(s, end) {
                    Some(p) => Some(p),
                    None => Some((major, minor)),
                }
            },
            None => last_token_from(s, i + 1),
        }
    } else {
        None
    }
}

/// The trailing carriage return removed, if present.
pub open spec fn trim_cr(s: Seq<char>) -> Seq<char> {
    if s.len() > 0 && s.last() == '\r' {
        s.drop_last()
    } else {
        s
    }
}

/// The first line of a command's output: the characters before the first
/// newline, with a trailing carriage return removed; the whole output if it
/// has no newline.
pub open spec fn first_line(s: Seq<char>) -> Seq<char> {
    match s.index_of_first('\n') {
        Some(i) => trim_cr(s.subrange(0, i)),
        None => s,
    }
}

/// The first line of a character vector.
fn first_line_of(s: &Vec<char>) -> (r: Vec<char>)
    ensures
        r@ == first_line(s@),
{
    proof {
        s@.index_of_first_ensures('\n');
    }
    match find_first_char(s, '\n') {
        Some(i) => {
            let mut line = copy_range(s, 0, i);
            if line.len() > 0 && line[line.len() - 1] == '\r' {
                line.pop();
                proof {
                    assert(line@ =~= trim_cr(s@.subrange(0, i as int)));
                }
            }
            line
        },
        None => {
            let line = copy_range(s, 0, s.len());
            proof {
                assert(s@.subrange(0, s@.len() as int) =~= s@);
            }
            line
        },
    }
}

/// Parses the C-library version from a diagnostic command's output: the
/// last "major.minor" token of the output's first line. `None` when the
/// line has no such token or a value does not fit in 32 bits.
pub fn parse_glibc_version_output(output: &str) -> (r: Option<(u32, u32)>)
    ensures
        match last_version_token(first_line(output@), 0) {
            Some(t) => {
                let (major, minor) = t;
                if major <= u32::MAX && minor <= u32::MAX {
                    r == Some(((major as u32), (minor as u32)))
                } else {
                    r is None
                }
            },
            None => r is None,
        },
{
    let chars = str_to_chars(output);
    let line = first_line_of(&chars);
    match last_token_from(&line, 0) {
        Some((Some(major), Some(minor))) => Some((major, minor)),
        Some(_) => None,
        None => None,
    }
}

/// The version tag following the first occurrence of the program name in a
/// `--version` output: the text of the "major.minor" token right after
/// `"helix "`.
pub open spec fn helix_tag_from(s: Seq<char>, i: int) -> Option<Seq<char>>
    decreases s.len() - i,
        when 0 <= i <= s.len()
        via helix_tag_from_decreases
{
    if i < s.len() {
        if contains_at(s, "helix "@, i) && version_token_at(s, i + "helix "@.len()) is Some {
            Some(
                s.subrange(
                    i + "helix "@.len(),
                    version_token_at(s, i + "helix "@.len())->Some_0.0,
                ),
            )
        } else {
            helix_tag_from(s, i + 1)
        }
    } else {
        None
    }
}

#[via_fn]
proof fn helix_tag_from_decreases(s: Seq<char>, i: int) {
}

/// Parses the editor's version tag (for instance "24.03") from its
/// `--version` output; `None` when the output has no such tag.
pub fn parse_helix_version_tag(version_output: &str) -> (r: Option<String>)
    ensures
        match helix_tag_from(version_output@, 0) {
            Some(t) => r is Some && r->Some_0@ == t,
            None => r is None,
        },
{
    let chars = str_to_chars(version_output);
    let pat = str_to_chars("helix ");
    match helix_scan(&chars, &pat, 0) {
        Some(tag) => Some(chars_to_string(&tag)),
        None => None,
    }
}

/// Scans for the program name and the version token after it.
fn helix_scan(s: &Vec<char>, pat: &Vec<char>, i: usize) -> (r: Option<Vec<char>>)
    requires
        i <= s@.len(),
        pat@ == "helix "@,
    ensures
        match helix_tag_from(s@, i as int) {
            Some(t) => r is Some && r->Some_0@ == t,
            None => r is None,
        },
    decreases s@.len() - i,
{
    if i < s.len() {
        if occurs_at(s, pat, i) {
            let start = i + pat.len();
            match token_at_exec(s, start) {
                Some((end, _, _)) => {
                    proof {
                        lemma_version_token_at(s@, start as int);
                    }
                    return Some(copy_range(s, start, end));
                },
                None => helix_scan(s, pat, i + 1),
            }
        } else {
            helix_scan(s, pat, i + 1)
        }
    } else {
        None
    }
}

} // verus!
