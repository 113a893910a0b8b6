//! The shape of a log line:
//!
//! ```text
//! [<timestamp>] [ALPM] <action-word> <package-name> (<version-field>)
//! ```
//!
//! A whole line is split into its four raw segments before any of them is
//! interpreted. The timestamp runs to the first `] [ALPM] ` separator, the
//! action word is the longest run of letters, the package name the longest
//! run of name characters, and the version field everything between the
//! following ` (` and the closing `)` that must end the line.

use vstd::prelude::*;
use crate::chars::{copy_range, exec_is_alpha, exec_is_name_char, exec_is_name_start, is_alpha,
    is_name_char, is_name_start, valid_name};

verus! {

// ---------------------------------------------------------------------------
// The separator `] [ALPM] `
// ---------------------------------------------------------------------------

/// The nine separator characters of `] [ALPM] `.
pub open spec fn sep_seq() -> Seq<char> {
    seq![']', ' ', '[', 'A', 'L', 'P', 'M', ']', ' ']
}

/// The separator stands at position `i` of `s`.
pub open spec fn sep_at(s: Seq<char>, i: int) -> bool {
    &&& 0 <= i
    &&& i + 9 <= s.len()
    &&& s[i] == ']'
    &&& s[i + 1] == ' '
    &&& s[i + 2] == '['
    &&& s[i + 3] == 'A'
    &&& s[i + 4] == 'L'
    &&& s[i + 5] == 'P'
    &&& s[i + 6] == 'M'
    &&& s[i + 7] == ']'
    &&& s[i + 8] == ' '
}

/// The first position at or after `i` where the separator stands.
pub open spec fn first_sep_from(s: Seq<char>, i: int) -> Option<int>
    decreases s.len() - i,
    when 0 <= i <= s.len()
{
    if i + 9 > s.len() {
        None
    } else if sep_at(s, i) {
        Some(i)
    } else {
        first_sep_from(s, i + 1)
    }
}

/// A position where the separator stands, with none before it, is the
/// first one.
pub proof fn lemma_first_sep_found(s: Seq<char>, start: int, e: int)
    requires
        0 <= start <= e,
        sep_at(s, e),
        forall|m: int| start <= m < e ==> !sep_at(s, m),
    ensures
        first_sep_from(s, start) == Some(e),
    decreases e - start,
{
    if start < e {
        lemma_first_sep_found(s, start + 1, e);
    }
}

fn exec_sep_at(v: &Vec<char>, i: usize) -> (r: bool)
    requires
        i <= v@.len(),
    ensures
        r == sep_at(v@, i as int),
{
    let n = v.len();
    if n - i < 9 {
        return false;
    }
    v[i] == ']' && v[i + 1] == ' ' && v[i + 2] == '[' && v[i + 3] == 'A' && v[i + 4] == 'L'
        && v[i + 5] == 'P' && v[i + 6] == 'M' && v[i + 7] == ']' && v[i + 8] == ' '
}

fn find_sep(v: &Vec<char>, start: usize) -> (r: Option<usize>)
    requires
        start <= v@.len(),
    ensures
        match r {
            Some(e) => first_sep_from(v@, start as int) == Some(e as int) && start <= e && e + 9
                <= v@.len(),
            None => first_sep_from(v@, start as int) is None,
        },
{
    let n = v.len();
    let mut i: usize = start;
    while n - i >= 9
        invariant
            start <= i <= n,
            n == v@.len(),
            first_sep_from(v@, start as int) == first_sep_from(v@, i as int),
        decreases n - i,
    {
        if exec_sep_at(v, i) {
            return Some(i);
        }
        i = i + 1;
    }
    None
}

// ---------------------------------------------------------------------------
// Maximal character runs
// ---------------------------------------------------------------------------

/// The end of the run of letters starting at `i`.
pub open spec fn run_end_alpha(s: Seq<char>, i: int) -> int
    decreases s.len() - i,
    when 0 <= i <= s.len()
{
    if i == s.len() || !is_alpha(s[i]) {
        i
    } else {
        run_end_alpha(s, i + 1)
    }
}

pub proof fn lemma_run_end_alpha_props(s: Seq<char>, i: int)
    requires
        0 <= i <= s.len(),
    ensures
        i <= run_end_alpha(s, i) <= s.len(),
        forall|k: int| i <= k < run_end_alpha(s, i) ==> is_alpha(#[trigger] s[k]),
        run_end_alpha(s, i) < s.len() ==> !is_alpha(s[run_end_alpha(s, i)]),
    decreases s.len() - i,
{
    if !(i == s.len() || !is_alpha(s[i])) {
        lemma_run_end_alpha_props(s, i + 1);
    }
}

/// A run of letters bounded by a non-letter (or the end) is maximal.
pub proof fn lemma_run_end_alpha_is(s: Seq<char>, i: int, e: int)
    requires
        0 <= i <= e <= s.len(),
        forall|k: int| i <= k < e ==> is_alpha(#[trigger] s[k]),
        e == s.len() || !is_alpha(s[e]),
    ensures
        run_end_alpha(s, i) == e,
    decreases e - i,
{
    if i < e {
        lemma_run_end_alpha_is(s, i + 1, e);
    }
}

/// The end of the run of name characters starting at `i`.
pub open spec fn run_end_name(s: Seq<char>, i: int) -> int
    decreases s.len() - i,
    when 0 <= i <= s.len()
{
    if i == s.len() || !is_name_char(s[i]) {
        i
    } else {
        run_end_name(s, i + 1)
    }
}

pub proof fn lemma_run_end_name_props(s: Seq<char>, i: int)
    requires
        0 <= i <= s.len(),
    ensures
        i <= run_end_name(s, i) <= s.len(),
        forall|k: int| i <= k < run_end_name(s, i) ==> is_name_char(#[trigger] s[k]),
        run_end_name(s, i) < s.len() ==> !is_name_char(s[run_end_name(s, i)]),
    decreases s.len() - i,
{
    if !(i == s.len() || !is_name_char(s[i])) {
        lemma_run_end_name_props(s, i + 1);
    }
}

/// A run of name characters bounded by a non-name character (or the end)
/// is maximal.
pub proof fn lemma_run_end_name_is(s: Seq<char>, i: int, e: int)
    requires
        0 <= i <= e <= s.len(),
        forall|k: int| i <= k < e ==> is_name_char(#[trigger] s[k]),
        e == s.len() || !is_name_char(s[e]),
    ensures
        run_end_name(s, i) == e,
    decreases e - i,
{
    if i < e {
        lemma_run_end_name_is(s, i + 1, e);
    }
}

fn scan_alpha(v: &Vec<char>, start: usize) -> (e: usize)
    requires
        start <= v@.len(),
    ensures
        e == run_end_alpha(v@, start as int),
        start <= e <= v@.len(),
{
    let n = v.len();
    let mut i: usize = start;
    while i < n && exec_is_alpha(v[i])
        invariant
            start <= i <= n,
            n == v@.len(),
            run_end_alpha(v@, start as int) == run_end_alpha(v@, i as int),
        decreases n - i,
    {
        i = i + 1;
    }
    proof {
        lemma_run_end_alpha_props(v@, start as int);
    }
    i
}

fn scan_name(v: &Vec<char>, start: usize) -> (e: usize)
    requires
        start <= v@.len(),
    ensures
        e == run_end_name(v@, start as int),
        start <= e <= v@.len(),
{
    let n = v.len();
    let mut i: usize = start;
    while i < n && exec_is_name_char(v[i])
        invariant
            start <= i <= n,
            n == v@.len(),
            run_end_name(v@, start as int) == run_end_name(v@, i as int),
        decreases n - i,
    {
        i = i + 1;
    }
    proof {
        lemma_run_end_name_props(v@, start as int);
    }
    i
}

// ---------------------------------------------------------------------------
// Splitting a line
// ---------------------------------------------------------------------------

/// The four raw segments of a line that has the log-entry shape.
pub struct RawParts {
    pub ts: Seq<char>,
    pub action: Seq<char>,
    pub name: Seq<char>,
    pub ver: Seq<char>,
}

/// Splits a whole line against the log-entry shape. The timestamp segment
/// ends at the first `] [ALPM] ` separator; the action word and the name
/// are maximal runs of their character classes, each followed by the
/// literal the shape demands; the version field is everything between
/// ` (` and a final `)` that must close the line.
pub open spec fn spec_split_line(line: Seq<char>) -> Option<RawParts> {
    if line.len() < 1 || line[0] != '[' {
        None
    } else {
        match first_sep_from(line, 1) {
            None => None,
            Some(se) => {
                let a0 = se + 9;
                let ae = run_end_alpha(line, a0);
                if ae == a0 || ae >= line.len() || line[ae] != ' ' {
                    None
                } else {
                    let n0 = ae + 1;
                    if n0 >= line.len() || !is_name_start(line[n0]) {
                        None
                    } else {
                        let ne = run_end_name(line, n0 + 1);
                        if ne + 2 > line.len() - 1 || line[ne] != ' ' || line[ne + 1] != '('
                            || line[line.len() - 1] != ')' {
                            None
                        } else {
                            Some(
                                RawParts {
                                    ts: line.subrange(1, se),
                                    action: line.subrange(a0, ae),
                                    name: line.subrange(n0, ne),
                                    ver: line.subrange(ne + 2, line.len() - 1),
                                },
                            )
                        }
                    }
                }
            },
        }
    }
}

/// The four raw segments, as character vectors.
pub struct RawSegments {
    pub ts: Vec<char>,
    pub action: Vec<char>,
    pub name: Vec<char>,
    pub ver: Vec<char>,
}

/// Splits a line into its raw segments, or rejects it.
pub fn split_line(v: &Vec<char>) -> (r: Option<RawSegments>)
    ensures
        match r {
            Some(rs) => spec_split_line(v@) == Some(
                RawParts { ts: rs.ts@, action: rs.action@, name: rs.name@, ver: rs.ver@ },
            ) && valid_name(rs.name@),
            None => spec_split_line(v@) is None,
        },
{
    let n = v.len();
    if n < 1 || v[0] != '[' {
        return None;
    }
    let se = match find_sep(v, 1) {
        None => {
            return None;
        },
        Some(se) => se,
    };
    let a0 = se + 9;
    let ae = scan_alpha(v, a0);
    if ae == a0 || ae >= n || v[ae] != ' ' {
        return None;
    }
    let n0 = ae + 1;
    if n0 >= n || !exec_is_name_start(v[n0]) {
        return None;
    }
    let ne = scan_name(v, n0 + 1);
    if ne > n - 3 || v[ne] != ' ' || v[ne + 1] != '(' || v[n - 1] != ')' {
        proof {
            assert(ne > n - 3 ==> ne + 2 > n - 1);
        }
        return None;
    }
    proof {
        assert(ne + 2 <= n - 1);
    }
    proof {
        lemma_run_end_name_props(v@, n0 as int + 1);
        assert(valid_name(v@.subrange(n0 as int, ne as int)));
    }
    Some(
        RawSegments {
            ts: copy_range(v, 1, se),
            action: copy_range(v, a0, ae),
            name: copy_range(v, n0, ne),
            ver: copy_range(v, ne + 2, n - 1),
        },
    )
}

} // verus!
