//! Name filters: user-supplied glob patterns where `*` matches any
//! sequence of characters and every other character matches itself,
//! anchored at both ends of the name.

use vstd::prelude::*;
use crate::chars::str_to_chars;

verus! {

/// Whether pattern suffix `p[i..]` matches name suffix `s[j..]`.
pub open spec fn glob_matches_from(p: Seq<char>, s: Seq<char>, i: int, j: int) -> bool
    decreases p.len() - i, s.len() - j,
    when 0 <= i <= p.len() && 0 <= j <= s.len()
{
    if i == p.len() {
        j == s.len()
    } else if p[i] == '*' {
        glob_matches_from(p, s, i + 1, j) || (j < s.len() && glob_matches_from(p, s, i, j + 1))
    } else {
        j < s.len() && p[i] == s[j] && glob_matches_from(p, s, i + 1, j + 1)
    }
}

/// Whether the whole pattern matches the whole name.
pub open spec fn glob_matches(p: Seq<char>, s: Seq<char>) -> bool {
    glob_matches_from(p, s, 0, 0)
}

/// A compiled name filter. Every glob string compiles: `*` is the only
/// wildcard and every other character stands for itself.
#[derive(Debug)]
pub struct Pattern {
    chars: Vec<char>,
}

impl View for Pattern {
    type V = Seq<char>;

    closed spec fn view(&self) -> Seq<char> {
        self.chars@
    }
}

impl Pattern {
    /// Compiles a user glob into a matcher over full names.
    pub fn compile(glob: &str) -> (p: Pattern)
        ensures
            p@ == glob@,
    {
        Pattern { chars: str_to_chars(glob) }
    }

    /// Tests a name, given as characters, against the pattern.
    pub fn matches_chars(&self, name: &Vec<char>) -> (r: bool)
        ensures
            r == glob_matches(self@, name@),
    {
        glob_match_from(&self.chars, name, 0, 0)
    }

    /// Tests a name against the pattern, anchored at both ends.
    pub fn matches_str(&self, name: &str) -> (r: bool)
        ensures
            r == glob_matches(self@, name@),
    {
        let name_chars = str_to_chars(name);
        self.matches_chars(&name_chars)
    }
}

fn glob_match_from(p: &Vec<char>, s: &Vec<char>, i: usize, j: usize) -> (r: bool)
    requires
        i <= p@.len(),
        j <= s@.len(),
    ensures
        r == glob_matches_from(p@, s@, i as int, j as int),
    decreases p@.len() - i, s@.len() - j,
{
    if i == p.len() {
        j == s.len()
    } else if p[i] == '*' {
        if glob_match_from(p, s, i + 1, j) {
            true
        } else if j < s.len() {
            glob_match_from(p, s, i, j + 1)
        } else {
            false
        }
    } else {
        j < s.len() && p[i] == s[j] && glob_match_from(p, s, i + 1, j + 1)
    }
}

/// The views of a list of compiled patterns.
pub open spec fn spec_patterns(ps: Seq<Pattern>) -> Seq<Seq<char>> {
    ps.map_values(|p: Pattern| p@)
}

/// An empty pattern list admits every name; a non-empty one admits a name
/// that at least one pattern matches.
pub open spec fn spec_matches_any(name: Seq<char>, pats: Seq<Seq<char>>) -> bool {
    pats.len() == 0 || exists|k: int| 0 <= k < pats.len() && #[trigger] glob_matches(pats[k], name)
}

/// Tests a name against a pattern list.
pub fn matches_any(name: &Vec<char>, patterns: &Vec<Pattern>) -> (r: bool)
    ensures
        r == spec_matches_any(name@, spec_patterns(patterns@)),
{
    if patterns.len() == 0 {
        return true;
    }
    let mut k: usize = 0;
    while k < patterns.len()
        invariant
            k <= patterns@.len(),
            forall|m: int|
                0 <= m < k ==> !#[trigger] glob_matches(spec_patterns(patterns@)[m], name@),
        decreases patterns@.len() - k,
    {
        if patterns[k].matches_chars(name) {
            proof {
                assert(spec_patterns(patterns@)[k as int] == patterns@[k as int]@);
            }
            return true;
        }
        k = k + 1;
    }
    false
}

/// Compiles every glob of a list, in order.
pub fn compile_all(globs: &Vec<String>) -> (ps: Vec<Pattern>)
    ensures
        ps@.len() == globs@.len(),
        forall|m: int| 0 <= m < globs@.len() ==> (#[trigger] ps@[m])@ == globs@[m]@,
{
    let mut ps: Vec<Pattern> = Vec::new();
    let mut k: usize = 0;
    while k < globs.len()
        invariant
            k <= globs@.len(),
            ps@.len() == k,
            forall|m: int| 0 <= m < k ==> (#[trigger] ps@[m])@ == globs@[m]@,
        decreases globs@.len() - k,
    {
        ps.push(Pattern::compile(globs[k].as_str()));
        k = k + 1;
    }
    ps
}

/// A pattern without `*` matches exactly the name equal to it: matching
/// is anchored at both ends and every non-wildcard character is literal.
pub proof fn lemma_literal_pattern_exact(p: Seq<char>, s: Seq<char>)
    requires
        forall|i: int| 0 <= i < p.len() ==> p[i] != '*',
    ensures
        glob_matches(p, s) <==> p == s,
{
    lemma_literal_pattern_from(p, s, 0, 0);
    if glob_matches(p, s) {
        assert(p =~= s);
    }
}

proof fn lemma_literal_pattern_from(p: Seq<char>, s: Seq<char>, i: int, j: int)
    requires
        0 <= i <= p.len(),
        0 <= j <= s.len(),
        forall|k: int| i <= k < p.len() ==> p[k] != '*',
    ensures
        glob_matches_from(p, s, i, j) <==> (p.len() - i == s.len() - j && (forall|k: int|
            i <= k < p.len() ==> #[trigger] p[k] == s[k + j - i])),
    decreases p.len() - i,
{
    if i == p.len() {
        // both sides reduce to the suffixes being empty together
    } else if j < s.len() && p[i] == s[j] {
        lemma_literal_pattern_from(p, s, i + 1, j + 1);
        if glob_matches_from(p, s, i, j) {
            assert forall|k: int| i <= k < p.len() implies #[trigger] p[k] == s[k + j - i] by {
                if k > i {
                    assert(p[k] == s[k + (j + 1) - (i + 1)]);
                }
            }
        }
        if p.len() - i == s.len() - j && (forall|k: int|
            i <= k < p.len() ==> #[trigger] p[k] == s[k + j - i]) {
            assert forall|k: int| i + 1 <= k < p.len() implies #[trigger] p[k] == s[k + (j + 1) - (
            i + 1)] by {
                assert(p[k] == s[k + j - i]);
            }
            assert(glob_matches_from(p, s, i + 1, j + 1));
        }
    } else {
        if p.len() - i == s.len() - j && (forall|k: int|
            i <= k < p.len() ==> #[trigger] p[k] == s[k + j - i]) {
            assert(s.len() - j > 0);
            assert(p[i] == s[i + j - i]);
            assert(false);
        }
    }
}

} // verus!
