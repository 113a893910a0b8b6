//! Package-change events: the action kind, the version-field grammar, the
//! typed event record, and the parsing pipeline from raw lines to events.

use vstd::prelude::*;
use crate::chars::{chars_to_string, exec_is_version_char, is_version_char, str_to_chars,
    valid_name, valid_version_token};
use crate::date::{spec_in_range, Date};
use crate::glob::{matches_any, spec_matches_any, spec_patterns, Pattern};
use crate::line::{spec_split_line, split_line, RawSegments};
use crate::timestamp::{spec_parse_ts, parse_ts, to_local_stamp, LocalStamp, PacmanDateTime,
    TsParts};

verus! {

// ---------------------------------------------------------------------------
// Actions
// ---------------------------------------------------------------------------

/// The kind of package change a log line records.
#[derive(Clone, Copy, PartialEq, Eq, Structural, Debug)]
pub enum PacmanAction {
    Installed,
    Upgraded,
    Downgraded,
    Removed,
}

/// The lowercase verb that names an action in the log and in the output.
pub open spec fn action_word(a: PacmanAction) -> Seq<char> {
    match a {
        PacmanAction::Installed => seq!['i', 'n', 's', 't', 'a', 'l', 'l', 'e', 'd'],
        PacmanAction::Upgraded => seq!['u', 'p', 'g', 'r', 'a', 'd', 'e', 'd'],
        PacmanAction::Downgraded => seq!['d', 'o', 'w', 'n', 'g', 'r', 'a', 'd', 'e', 'd'],
        PacmanAction::Removed => seq!['r', 'e', 'm', 'o', 'v', 'e', 'd'],
    }
}

/// The action a raw word denotes, case sensitively; any other word
/// denotes none.
pub open spec fn spec_parse_action(w: Seq<char>) -> Option<PacmanAction> {
    if w == action_word(PacmanAction::Installed) {
        Some(PacmanAction::Installed)
    } else if w == action_word(PacmanAction::Upgraded) {
        Some(PacmanAction::Upgraded)
    } else if w == action_word(PacmanAction::Downgraded) {
        Some(PacmanAction::Downgraded)
    } else if w == action_word(PacmanAction::Removed) {
        Some(PacmanAction::Removed)
    } else {
        None
    }
}

/// Maps a raw action word to its action.
pub fn parse_action(w: &Vec<char>) -> (r: Option<PacmanAction>)
    ensures
        r == spec_parse_action(w@),
{
    if w.len() == 9 {
        if w[0] == 'i' && w[1] == 'n' && w[2] == 's' && w[3] == 't' && w[4] == 'a' && w[5] == 'l'
            && w[6] == 'l' && w[7] == 'e' && w[8] == 'd' {
            proof {
                assert(w@ =~= action_word(PacmanAction::Installed));
            }
            Some(PacmanAction::Installed)
        } else {
            None
        }
    } else if w.len() == 8 {
        if w[0] == 'u' && w[1] == 'p' && w[2] == 'g' && w[3] == 'r' && w[4] == 'a' && w[5] == 'd'
            && w[6] == 'e' && w[7] == 'd' {
            proof {
                assert(w@ =~= action_word(PacmanAction::Upgraded));
            }
            Some(PacmanAction::Upgraded)
        } else {
            None
        }
    } else if w.len() == 10 {
        if w[0] == 'd' && w[1] == 'o' && w[2] == 'w' && w[3] == 'n' && w[4] == 'g' && w[5] == 'r'
            && w[6] == 'a' && w[7] == 'd' && w[8] == 'e' && w[9] == 'd' {
            proof {
                assert(w@ =~= action_word(PacmanAction::Downgraded));
            }
            Some(PacmanAction::Downgraded)
        } else {
            None
        }
    } else if w.len() == 7 {
        if w[0] == 'r' && w[1] == 'e' && w[2] == 'm' && w[3] == 'o' && w[4] == 'v' && w[5] == 'e'
            && w[6] == 'd' {
            proof {
                assert(w@ =~= action_word(PacmanAction::Removed));
            }
            Some(PacmanAction::Removed)
        } else {
            None
        }
    } else {
        None
    }
}

// ---------------------------------------------------------------------------
// The version field
// ---------------------------------------------------------------------------

/// The four characters of the ` -> ` arrow between two version tokens.
pub open spec fn arrow_seq() -> Seq<char> {
    seq![' ', '-', '>', ' ']
}

/// The arrow stands at position `i` of `s`.
pub open spec fn arrow_at(s: Seq<char>, i: int) -> bool {
    &&& 0 <= i
    &&& i + 4 <= s.len()
    &&& s[i] == ' '
    &&& s[i + 1] == '-'
    &&& s[i + 2] == '>'
    &&& s[i + 3] == ' '
}

/// The end of the run of version-token characters starting at `i`.
pub open spec fn run_end_version(s: Seq<char>, i: int) -> int
    decreases s.len() - i,
    when 0 <= i <= s.len()
{
    if i == s.len() || !is_version_char(s[i]) {
        i
    } else {
        run_end_version(s, i + 1)
    }
}

pub proof fn lemma_run_end_version_props(s: Seq<char>, i: int)
    requires
        0 <= i <= s.len(),
    ensures
        i <= run_end_version(s, i) <= s.len(),
        forall|k: int| i <= k < run_end_version(s, i) ==> is_version_char(#[trigger] s[k]),
        run_end_version(s, i) < s.len() ==> !is_version_char(s[run_end_version(s, i)]),
    decreases s.len() - i,
{
    if !(i == s.len() || !is_version_char(s[i])) {
        lemma_run_end_version_props(s, i + 1);
    }
}

/// A run of version characters bounded by another character (or the end)
/// is maximal.
pub proof fn lemma_run_end_version_is(s: Seq<char>, i: int, e: int)
    requires
        0 <= i <= e <= s.len(),
        forall|k: int| i <= k < e ==> is_version_char(#[trigger] s[k]),
        e == s.len() || !is_version_char(s[e]),
    ensures
        run_end_version(s, i) == e,
    decreases e - i,
{
    if i < e {
        lemma_run_end_version_is(s, i + 1, e);
    }
}

/// Splits a raw version field. The first token is the maximal non-empty
/// run of token characters from the start; a field that does not begin
/// with one denotes nothing. A second token exists exactly when the rest
/// of the field is ` -> ` followed by a non-empty all-token remainder;
/// any other rest is ignored.
pub open spec fn spec_parse_version(v: Seq<char>) -> Option<(Seq<char>, Option<Seq<char>>)> {
    let e = run_end_version(v, 0);
    if e == 0 {
        None
    } else {
        let tok1 = v.subrange(0, e);
        if arrow_at(v, e) && e + 4 < v.len() && (forall|k: int|
            e + 4 <= k < v.len() ==> is_version_char(#[trigger] v[k])) {
            Some((tok1, Some(v.subrange(e + 4, v.len() as int))))
        } else {
            Some((tok1, None))
        }
    }
}

fn scan_version(v: &Vec<char>, start: usize) -> (e: usize)
    requires
        start <= v@.len(),
    ensures
        e == run_end_version(v@, start as int),
        start <= e <= v@.len(),
{
    let n = v.len();
    let mut i: usize = start;
    while i < n && exec_is_version_char(v[i])
        invariant
            start <= i <= n,
            n == v@.len(),
            run_end_version(v@, start as int) == run_end_version(v@, i as int),
        decreases n - i,
    {
        i = i + 1;
    }
    proof {
        lemma_run_end_version_props(v@, start as int);
    }
    i
}

/// Splits a raw version field into its tokens.
pub fn parse_version(v: &Vec<char>) -> (r: Option<(Vec<char>, Option<Vec<char>>)>)
    ensures
        match r {
            Some((t1, t2)) => {
                &&& spec_parse_version(v@) matches Some((s1, s2))
                &&& t1@ == s1
                &&& match (t2, s2) {
                    (Some(t), Some(s)) => t@ == s,
                    (None, None) => true,
                    _ => false,
                }
                &&& valid_version_token(t1@)
                &&& (t2 matches Some(t) ==> valid_version_token(t@))
            },
            None => spec_parse_version(v@) is None,
        },
{
    let n = v.len();
    let e = scan_version(v, 0);
    if e == 0 {
        return None;
    }
    proof {
        lemma_run_end_version_props(v@, 0);
    }
    let tok1 = crate::chars::copy_range(v, 0, e);
    let arrow_ok = n - e >= 4 && v[e] == ' ' && v[e + 1] == '-' && v[e + 2] == '>' && v[e + 3]
        == ' ';
    if arrow_ok && e + 4 < n {
        let re = scan_version(v, e + 4);
        if re == n {
            proof {
                lemma_run_end_version_props(v@, e as int + 4);
            }
            let tok2 = crate::chars::copy_range(v, e + 4, n);
            return Some((tok1, Some(tok2)));
        }
    }
    proof {
        if arrow_at(v@, e as int) && e + 4 < n {
            lemma_run_end_version_props(v@, e as int + 4);
            if run_end_version(v@, e as int + 4) == n as int {
            } else {
                assert(!is_version_char(v@[run_end_version(v@, e as int + 4)]));
            }
        }
    }
    Some((tok1, None))
}

// ---------------------------------------------------------------------------
// Events
// ---------------------------------------------------------------------------

/// Why a line was rejected. Every rejection is recovered from silently by
/// the pipeline; the variants only tell the reasons apart.
#[derive(Clone, Copy, PartialEq, Eq, Structural, Debug)]
pub enum ParseError {
    /// The line does not have the log-entry shape.
    MalformedLine,
    /// The package name matches none of the given patterns.
    NameMismatch,
    /// The action word is not one of the four known verbs.
    UnknownAction,
    /// The timestamp segment is in neither accepted format.
    UnparseableTimestamp,
    /// The version field lacks a token the action requires.
    MissingVersion,
}

/// Which version fields an action carries.
pub open spec fn version_rule(
    a: PacmanAction,
    prev: Option<Seq<char>>,
    curr: Option<Seq<char>>,
) -> bool {
    match a {
        PacmanAction::Installed => prev is None && curr is Some,
        PacmanAction::Upgraded => prev is Some && curr is Some,
        PacmanAction::Downgraded => prev is Some && curr is Some,
        PacmanAction::Removed => prev is Some && curr is None,
    }
}

/// How the two raw tokens fill the version fields of each action: the
/// first token is the previous version for every action but Installed,
/// where it is the one being installed; the second token, required for
/// Upgraded and Downgraded alike, is the current version.
pub open spec fn spec_assign_versions(
    a: PacmanAction,
    tok1: Seq<char>,
    tok2: Option<Seq<char>>,
) -> Result<(Option<Seq<char>>, Option<Seq<char>>), ParseError> {
    match a {
        PacmanAction::Installed => Ok((None, Some(tok1))),
        PacmanAction::Upgraded | PacmanAction::Downgraded => match tok2 {
            Some(t2) => Ok((Some(tok1), Some(t2))),
            None => Err(ParseError::MissingVersion),
        },
        PacmanAction::Removed => Ok((Some(tok1), None)),
    }
}

/// A fully parsed line, before any time-zone conversion: everything the
/// line itself determines.
pub struct ParsedLine {
    pub ts: TsParts,
    pub action: PacmanAction,
    pub name: Seq<char>,
    pub previous: Option<Seq<char>>,
    pub current: Option<Seq<char>>,
}

/// What one raw line denotes under a pattern list: a parsed line, or the
/// reason it is rejected. The checks run in the order the parser does:
/// shape, name filter, action word, timestamp, version field.
pub open spec fn spec_from_line(line: Seq<char>, pats: Seq<Seq<char>>) -> Result<
    ParsedLine,
    ParseError,
> {
    match spec_split_line(line) {
        None => Err(ParseError::MalformedLine),
        Some(parts) => {
            if !spec_matches_any(parts.name, pats) {
                Err(ParseError::NameMismatch)
            } else {
                match spec_parse_action(parts.action) {
                    None => Err(ParseError::UnknownAction),
                    Some(a) => match spec_parse_ts(parts.ts) {
                        None => Err(ParseError::UnparseableTimestamp),
                        Some(ts) => match spec_parse_version(parts.ver) {
                            None => Err(ParseError::MalformedLine),
                            Some((t1, t2)) => match spec_assign_versions(a, t1, t2) {
                                Err(e) => Err(e),
                                Ok((prev, curr)) => Ok(
                                    ParsedLine {
                                        ts,
                                        action: a,
                                        name: parts.name,
                                        previous: prev,
                                        current: curr,
                                    },
                                ),
                            },
                        },
                    },
                }
            }
        },
    }
}

/// One package-change event, assembled from one valid log line.
#[derive(Debug)]
pub struct PackageChange {
    pub name: String,
    pub datetime: PacmanDateTime,
    pub action: PacmanAction,
    pub previous_version: Option<String>,
    pub current_version: Option<String>,
}

impl PackageChange {
    pub open spec fn prev_view(self) -> Option<Seq<char>> {
        match self.previous_version {
            Some(s) => Some(s@),
            None => None,
        }
    }

    pub open spec fn curr_view(self) -> Option<Seq<char>> {
        match self.current_version {
            Some(s) => Some(s@),
            None => None,
        }
    }

    /// The event invariant: a well-formed name, a well-formed timestamp,
    /// version tokens of the token grammar, present exactly as the action
    /// demands.
    pub open spec fn wf(self) -> bool {
        &&& valid_name(self.name@)
        &&& self.datetime.wf()
        &&& version_rule(self.action, self.prev_view(), self.curr_view())
        &&& (self.prev_view() matches Some(t) ==> valid_version_token(t))
        &&& (self.curr_view() matches Some(t) ==> valid_version_token(t))
    }

    /// The event's calendar date, in local time.
    pub open spec fn spec_date(self) -> Date {
        self.datetime.stamp().spec_date()
    }

    pub fn date(&self) -> (r: Date)
        ensures
            r == self.spec_date(),
    {
        self.datetime.exec_stamp().date()
    }
}

/// The event agrees with what its line determined: every field the line
/// pins down is equal, and a converted timestamp is at least well formed.
pub open spec fn event_matches_parsed(e: PackageChange, pl: ParsedLine) -> bool {
    &&& e.name@ == pl.name
    &&& e.action == pl.action
    &&& e.prev_view() == pl.previous
    &&& e.curr_view() == pl.current
    &&& e.wf()
    &&& (pl.ts matches TsParts::Naive { stamp } ==> e.datetime == PacmanDateTime::WithoutTimezone(
        stamp,
    ))
    &&& (pl.ts matches TsParts::Aware { .. } ==> e.datetime is WithTimezone)
}

impl PackageChange {
    /// Parses one raw log line against a pattern list. Returns an event
    /// exactly when the line denotes one; the event carries the fields the
    /// line determined, with an offset-carrying timestamp converted to the
    /// local time zone. Every other line is rejected with the reason the
    /// line's first failing check gives.
    pub fn from_line(line: String, patterns: &Vec<Pattern>) -> (r: Result<
        PackageChange,
        ParseError,
    >)
        ensures
            r matches Ok(e) ==> spec_from_line(line@, spec_patterns(patterns@)) matches Ok(pl)
                && event_matches_parsed(e, pl),
            r matches Err(err) ==> spec_from_line(line@, spec_patterns(patterns@)) matches Err(err2)
                && err == err2,
    {
        let chars = str_to_chars(line.as_str());
        let rs: RawSegments = match split_line(&chars) {
            None => {
                return Err(ParseError::MalformedLine);
            },
            Some(rs) => rs,
        };
        if !matches_any(&rs.name, patterns) {
            return Err(ParseError::NameMismatch);
        }
        let action = match parse_action(&rs.action) {
            None => {
                return Err(ParseError::UnknownAction);
            },
            Some(a) => a,
        };
        let ts = match parse_ts(&rs.ts) {
            None => {
                return Err(ParseError::UnparseableTimestamp);
            },
            Some(t) => t,
        };
        let (tok1, tok2) = match parse_version(&rs.ver) {
            None => {
                return Err(ParseError::MalformedLine);
            },
            Some(p) => p,
        };
        let (prev, curr): (Option<Vec<char>>, Option<Vec<char>>) = match action {
            PacmanAction::Installed => (None, Some(tok1)),
            PacmanAction::Upgraded | PacmanAction::Downgraded => match tok2 {
                Some(t2) => (Some(tok1), Some(t2)),
                None => {
                    return Err(ParseError::MissingVersion);
                },
            },
            PacmanAction::Removed => (Some(tok1), None),
        };
        let datetime = match ts {
            TsParts::Naive { stamp } => PacmanDateTime::WithoutTimezone(stamp),
            TsParts::Aware { year, month, day, hour, minute, second, offset_minutes } => {
                PacmanDateTime::WithTimezone(
                    to_local_stamp(year, month, day, hour, minute, second, offset_minutes),
                )
            },
        };
        Ok(
            PackageChange {
                name: chars_to_string(&rs.name),
                datetime,
                action,
                previous_version: match prev {
                    Some(t) => Some(chars_to_string(&t)),
                    None => None,
                },
                current_version: match curr {
                    Some(t) => Some(chars_to_string(&t)),
                    None => None,
                },
            },
        )
    }
}

// ---------------------------------------------------------------------------
// The pipeline over many lines
// ---------------------------------------------------------------------------

/// The parsed lines of a list of raw lines, in file order, with every
/// rejected line silently dropped.
pub open spec fn spec_changes(lines: Seq<Seq<char>>, pats: Seq<Seq<char>>) -> Seq<ParsedLine>
    decreases lines.len(),
{
    if lines.len() == 0 {
        Seq::empty()
    } else {
        let rest = spec_changes(lines.drop_last(), pats);
        match spec_from_line(lines.last(), pats) {
            Ok(pl) => rest.push(pl),
            Err(_) => rest,
        }
    }
}

/// Parses every line of a log, in order, keeping the events of the lines
/// that parse and match the patterns, and silently dropping the rest.
pub fn get_changes(lines: &Vec<String>, patterns: &Vec<Pattern>) -> (r: Vec<PackageChange>)
    ensures
        ({
            let models = spec_changes(
                lines@.map_values(|l: String| l@),
                spec_patterns(patterns@),
            );
            &&& r@.len() == models.len()
            &&& forall|i: int|
                0 <= i < models.len() ==> event_matches_parsed(#[trigger] r@[i], models[i])
        }),
{
    let ghost lview = lines@.map_values(|l: String| l@);
    let ghost pats = spec_patterns(patterns@);
    let mut r: Vec<PackageChange> = Vec::new();
    let mut k: usize = 0;
    while k < lines.len()
        invariant
            k <= lines@.len(),
            lview == lines@.map_values(|l: String| l@),
            pats == spec_patterns(patterns@),
            r@.len() == spec_changes(lview.subrange(0, k as int), pats).len(),
            forall|i: int|
                0 <= i < r@.len() ==> event_matches_parsed(
                    #[trigger] r@[i],
                    spec_changes(lview.subrange(0, k as int), pats)[i],
                ),
        decreases lines@.len() - k,
    {
        let ghost prefix = lview.subrange(0, k as int);
        let line = lines[k].clone();
        proof {
            assert(lview.subrange(0, k as int + 1).drop_last() =~= prefix);
            assert(lview.subrange(0, k as int + 1).last() == lview[k as int]);
            assert(lview[k as int] == lines@[k as int]@);
        }
        match PackageChange::from_line(line, patterns) {
            Ok(e) => {
                r.push(e);
            },
            Err(_) => {},
        }
        k = k + 1;
    }
    proof {
        assert(lview.subrange(0, lines@.len() as int) =~= lview);
    }
    r
}

/// The events whose dates pass the filter, in their given order.
pub open spec fn spec_filter_date(
    evs: Seq<PackageChange>,
    not_after: Option<Date>,
    not_before: Option<Date>,
) -> Seq<PackageChange>
    decreases evs.len(),
{
    if evs.len() == 0 {
        Seq::empty()
    } else {
        let rest = spec_filter_date(evs.drop_first(), not_after, not_before);
        if spec_in_range(evs.first().spec_date(), not_after, not_before) {
            seq![evs.first()] + rest
        } else {
            rest
        }
    }
}

/// Keeps the events whose calendar dates pass the inclusive bounds, in
/// their given order.
pub fn filter_by_date(
    changes: Vec<PackageChange>,
    not_after: Option<Date>,
    not_before: Option<Date>,
) -> (r: Vec<PackageChange>)
    ensures
        r@ == spec_filter_date(changes@, not_after, not_before),
{
    let ghost whole = changes@;
    let mut rest = changes;
    let mut r: Vec<PackageChange> = Vec::new();
    while rest.len() > 0
        invariant
            spec_filter_date(whole, not_after, not_before) == r@ + spec_filter_date(
                rest@,
                not_after,
                not_before,
            ),
        decreases rest@.len(),
    {
        let ghost before_view = rest@;
        let e = rest.remove(0);
        proof {
            assert(before_view.drop_first() =~= rest@);
            assert(before_view.first() == e);
        }
        if crate::date::in_range(e.date(), not_after, not_before) {
            proof {
                assert(spec_filter_date(before_view, not_after, not_before) == seq![e]
                    + spec_filter_date(rest@, not_after, not_before));
            }
            r.push(e);
            proof {
                assert(r@ + spec_filter_date(rest@, not_after, not_before) =~= r@.drop_last()
                    + (seq![e] + spec_filter_date(rest@, not_after, not_before)));
            }
        }
    }
    proof {
        assert(r@ + spec_filter_date(rest@, not_after, not_before) =~= r@);
    }
    r
}

} // verus!
