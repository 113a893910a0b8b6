//! The library's cross-cutting guarantees, stated and proved once:
//!
//! - parsing pins down every field an event shows, so rendering an event
//!   reproduces exactly what was parsed;
//! - a rendered event, put back into a log line, parses to the same
//!   fields (the renderer itself drops the `[ALPM]` tag, so the round
//!   trip goes through the canonical line that carries it);
//! - each action carries exactly the version fields its rule names;
//! - parsing and filtering distribute over concatenation of the input,
//!   so the pipeline keeps the file order of its survivors.

use vstd::prelude::*;
use crate::chars::{is_alpha, valid_name, valid_version_token};
use crate::date::{spec_in_range, Date};
use crate::glob::spec_matches_any;
use crate::line::{first_sep_from, lemma_first_sep_found, lemma_run_end_alpha_is,
    lemma_run_end_name_is, sep_at, sep_seq, spec_split_line};
use crate::paclog::{action_word, arrow_seq, event_matches_parsed, lemma_run_end_version_is,
    spec_assign_versions, spec_changes, spec_filter_date, spec_from_line, spec_parse_action,
    spec_parse_version, version_rule, PackageChange, PacmanAction};
use crate::render::{rendered_tail, spec_render_plain, ver_display};
use crate::timestamp::{lemma_ts_display_parses, lemma_ts_format_inverts, naive_stamp_of,
    spec_parse_ts, ts_display, TsParts};

verus! {

/// The log line that records an event: what the renderer prints, with the
/// `[ALPM]` tag the renderer drops put back after the timestamp.
pub open spec fn canonical_line(e: PackageChange) -> Seq<char> {
    seq!['['] + ts_display(e.datetime.stamp()) + sep_seq() + rendered_tail(e)
}

proof fn lemma_action_word_wf(a: PacmanAction)
    ensures
        7 <= action_word(a).len() <= 10,
        forall|k: int| 0 <= k < action_word(a).len() ==> is_alpha(#[trigger] action_word(a)[k]),
        spec_parse_action(action_word(a)) == Some(a),
{
    let w = action_word(a);
    match a {
        PacmanAction::Installed => {
            assert forall|k: int| 0 <= k < w.len() implies is_alpha(#[trigger] w[k]) by {
                assert(w[0] == 'i' && w[1] == 'n' && w[2] == 's' && w[3] == 't' && w[4] == 'a'
                    && w[5] == 'l' && w[6] == 'l' && w[7] == 'e' && w[8] == 'd');
            }
        },
        PacmanAction::Upgraded => {
            assert forall|k: int| 0 <= k < w.len() implies is_alpha(#[trigger] w[k]) by {
                assert(w[0] == 'u' && w[1] == 'p' && w[2] == 'g' && w[3] == 'r' && w[4] == 'a'
                    && w[5] == 'd' && w[6] == 'e' && w[7] == 'd');
            }
        },
        PacmanAction::Downgraded => {
            assert forall|k: int| 0 <= k < w.len() implies is_alpha(#[trigger] w[k]) by {
                assert(w[0] == 'd' && w[1] == 'o' && w[2] == 'w' && w[3] == 'n' && w[4] == 'g'
                    && w[5] == 'r' && w[6] == 'a' && w[7] == 'd' && w[8] == 'e' && w[9] == 'd');
            }
        },
        PacmanAction::Removed => {
            assert forall|k: int| 0 <= k < w.len() implies is_alpha(#[trigger] w[k]) by {
                assert(w[0] == 'r' && w[1] == 'e' && w[2] == 'm' && w[3] == 'o' && w[4] == 'v'
                    && w[5] == 'e' && w[6] == 'd');
            }
        },
    }
}

proof fn lemma_parse_ver_display(a: PacmanAction, prev: Option<Seq<char>>, curr: Option<Seq<char>>)
    requires
        version_rule(a, prev, curr),
        prev matches Some(t) ==> valid_version_token(t),
        curr matches Some(t) ==> valid_version_token(t),
    ensures
        ver_display(prev, curr).len() > 0,
        spec_parse_version(ver_display(prev, curr)) matches Some((t1, t2))
            && spec_assign_versions(a, t1, t2) matches Ok(pc) && pc == (prev, curr),
{
    let v = ver_display(prev, curr);
    match (prev, curr) {
        (Option::None, Option::Some(c)) => {
            lemma_run_end_version_is(v, 0, v.len() as int);
            assert(v.subrange(0, v.len() as int) =~= c);
            assert(a == PacmanAction::Installed);
        },
        (Option::Some(p), Option::Some(c)) => {
            let pl = p.len() as int;
            assert(v.len() == pl + 4 + c.len());
            assert forall|k: int| 0 <= k < pl implies crate::chars::is_version_char(
                #[trigger] v[k],
            ) by {
                assert(v[k] == p[k]);
            }
            assert(v[pl] == arrow_seq()[0]);
            assert(v[pl] == ' ');
            lemma_run_end_version_is(v, 0, pl);
            assert(v[pl + 1] == '-' && v[pl + 2] == '>' && v[pl + 3] == ' ');
            assert(crate::paclog::arrow_at(v, pl));
            assert forall|k: int| pl + 4 <= k < v.len() implies crate::chars::is_version_char(
                #[trigger] v[k],
            ) by {
                assert(v[k] == c[k - pl - 4]);
            }
            assert(v.subrange(0, pl) =~= p);
            assert(v.subrange(pl + 4, v.len() as int) =~= c);
            assert(a == PacmanAction::Upgraded || a == PacmanAction::Downgraded);
        },
        (Option::Some(p), Option::None) => {
            lemma_run_end_version_is(v, 0, v.len() as int);
            assert(v.subrange(0, v.len() as int) =~= p);
            assert(a == PacmanAction::Removed);
        },
        (Option::None, Option::None) => {
            assert(false);
        },
    }
}

/// Rendering an event and putting the `[ALPM]` tag back yields a line
/// that parses to exactly the same fields: the same name, action and
/// versions, and the displayed timestamp read back in the offset-less
/// format.
pub proof fn lemma_canonical_roundtrip(e: PackageChange, pats: Seq<Seq<char>>)
    requires
        e.wf(),
        spec_matches_any(e.name@, pats),
    ensures
        spec_from_line(canonical_line(e), pats) matches Ok(pl) && pl.name == e.name@ && pl.action
            == e.action && pl.previous == e.prev_view() && pl.current == e.curr_view() && pl.ts
            == (TsParts::Naive { stamp: e.datetime.stamp() }),
{
    let st = e.datetime.stamp();
    let line = canonical_line(e);
    let tail = rendered_tail(e);
    let w = action_word(e.action);
    let wl = w.len() as int;
    let name = e.name@;
    let nl = name.len() as int;
    let ver = ver_display(e.prev_view(), e.curr_view());
    let vl = ver.len() as int;
    lemma_action_word_wf(e.action);
    lemma_ts_display_parses(st);
    lemma_parse_ver_display(e.action, e.prev_view(), e.curr_view());

    assert(tail.len() == wl + 1 + nl + 2 + vl + 1);
    assert(line.len() == 26 + tail.len());
    assert(line[0] == '[');

    // the bracketed timestamp, then the separator
    assert(forall|k: int| 0 <= k < 16 ==> line[1 + k] == #[trigger] ts_display(st)[k]);
    assert(forall|j: int| 0 <= j < 9 ==> line[17 + j] == #[trigger] sep_seq()[j]);
    assert(forall|j: int| 0 <= j < tail.len() ==> line[26 + j] == #[trigger] tail[j]);
    assert(sep_at(line, 17));
    assert forall|m: int| 1 <= m < 17 implies !sep_at(line, m) by {
        assert(line[m] == ts_display(st)[m - 1]);
        assert(ts_display(st)[m - 1] != ']');
    }
    lemma_first_sep_found(line, 1, 17);
    assert(first_sep_from(line, 1) == Some(17int));
    assert(line.subrange(1, 17) =~= ts_display(st));

    // the action word
    assert(forall|j: int| 0 <= j < wl ==> tail[j] == w[j]);
    assert(tail[wl] == ' ');
    assert forall|k: int| 26 <= k < 26 + wl implies is_alpha(#[trigger] line[k]) by {
        assert(line[k] == w[k - 26]);
    }
    assert(line[26 + wl] == ' ');
    lemma_run_end_alpha_is(line, 26, 26 + wl);
    assert(line.subrange(26, 26 + wl) =~= w);

    // the package name
    let n0 = 27 + wl;
    assert(forall|k: int| 0 <= k < nl ==> tail[wl + 1 + k] == name[k]);
    assert(line[n0] == name[0]);
    assert forall|k: int| n0 + 1 <= k < n0 + nl implies crate::chars::is_name_char(
        #[trigger] line[k],
    ) by {
        assert(line[k] == name[k - n0]);
    }
    assert(tail[wl + 1 + nl] == ' ');
    assert(line[n0 + nl] == ' ');
    lemma_run_end_name_is(line, n0 + 1, n0 + nl);
    assert(line.subrange(n0, n0 + nl) =~= name);

    // the version field and the closing paren
    let ne = n0 + nl;
    assert(tail[wl + 2 + nl] == '(');
    assert(line[ne + 1] == '(');
    assert(tail[tail.len() - 1] == ')');
    assert(line[line.len() - 1] == ')');
    assert(forall|k: int| 0 <= k < vl ==> tail[wl + 3 + nl + k] == ver[k]);
    assert(line.subrange(ne + 2, line.len() - 1) =~= ver);

    // the split, and each segment's interpretation
    assert(spec_split_line(line) matches Some(parts) && parts.ts == ts_display(st) && parts.action
        == w && parts.name == name && parts.ver == ver);
    assert(spec_parse_action(w) == Some(e.action));
    assert(spec_parse_ts(ts_display(st)) == Some(TsParts::Naive { stamp: st }));
}

/// Parsing pins down everything rendering shows: the rendered line of any
/// event a line parses to is built from exactly the segments of that
/// line, and for an offset-less line the displayed timestamp is the
/// line's own timestamp text.
pub proof fn lemma_parse_then_render(line: Seq<char>, pats: Seq<Seq<char>>, e: PackageChange)
    requires
        spec_from_line(line, pats) matches Ok(pl) && event_matches_parsed(e, pl),
    ensures
        spec_split_line(line) matches Some(parts) && spec_render_plain(e) == seq!['['] + ts_display(
            e.datetime.stamp(),
        ) + seq![']', ' '] + parts.action + seq![' '] + parts.name + seq![' ', '('] + ver_display(
            e.prev_view(),
            e.curr_view(),
        ) + seq![')'],
        spec_from_line(line, pats)->Ok_0.ts is Naive ==> (spec_split_line(line) matches Some(p2)
            && ts_display(e.datetime.stamp()) == p2.ts),
{
    let pl = spec_from_line(line, pats)->Ok_0;
    let parts = spec_split_line(line)->Some_0;
    assert(spec_parse_action(parts.action) == Some(pl.action));
    assert(parts.action == action_word(pl.action));
    assert(spec_render_plain(e) =~= seq!['['] + ts_display(e.datetime.stamp()) + seq![']', ' ']
        + parts.action + seq![' '] + parts.name + seq![' ', '('] + ver_display(
        e.prev_view(),
        e.curr_view(),
    ) + seq![')']);
    if pl.ts is Naive {
        assert(spec_parse_ts(parts.ts) == Some(pl.ts));
        assert(pl.ts == TsParts::Naive { stamp: naive_stamp_of(parts.ts) });
        lemma_ts_format_inverts(parts.ts);
        assert(e.datetime.stamp() == naive_stamp_of(parts.ts));
    }
}

/// Each action carries exactly the version fields its rule names:
/// Installed only a current version, Upgraded and Downgraded both,
/// Removed only a previous version.
pub proof fn lemma_version_presence(e: PackageChange)
    requires
        e.wf(),
    ensures
        e.action == PacmanAction::Installed ==> e.previous_version is None && e.current_version
            is Some,
        e.action == PacmanAction::Upgraded || e.action == PacmanAction::Downgraded
            ==> e.previous_version is Some && e.current_version is Some,
        e.action == PacmanAction::Removed ==> e.previous_version is Some && e.current_version
            is None,
{
}

/// Parsing distributes over concatenation of the input lines: the events
/// of a log are the events of its parts, in order. With the exact
/// contracts of the parsing and filtering functions this makes the whole
/// pipeline order preserving.
pub proof fn lemma_changes_append(lines1: Seq<Seq<char>>, lines2: Seq<Seq<char>>, pats: Seq<
    Seq<char>,
>)
    ensures
        spec_changes(lines1 + lines2, pats) == spec_changes(lines1, pats) + spec_changes(
            lines2,
            pats,
        ),
    decreases lines2.len(),
{
    if lines2.len() == 0 {
        assert(lines1 + lines2 =~= lines1);
        assert(spec_changes(lines1, pats) + spec_changes(lines2, pats) =~= spec_changes(
            lines1,
            pats,
        ));
    } else {
        lemma_changes_append(lines1, lines2.drop_last(), pats);
        assert((lines1 + lines2).drop_last() =~= lines1 + lines2.drop_last());
        assert((lines1 + lines2).last() == lines2.last());
        match spec_from_line(lines2.last(), pats) {
            Ok(pl) => {
                assert((spec_changes(lines1, pats) + spec_changes(lines2.drop_last(), pats)).push(
                    pl,
                ) =~= spec_changes(lines1, pats) + spec_changes(lines2.drop_last(), pats).push(pl));
            },
            Err(_) => {},
        }
    }
}

/// The date filter distributes over concatenation of the events: it keeps
/// the survivors of each part, in order.
pub proof fn lemma_filter_date_append(
    evs1: Seq<PackageChange>,
    evs2: Seq<PackageChange>,
    not_after: Option<Date>,
    not_before: Option<Date>,
)
    ensures
        spec_filter_date(evs1 + evs2, not_after, not_before) == spec_filter_date(
            evs1,
            not_after,
            not_before,
        ) + spec_filter_date(evs2, not_after, not_before),
    decreases evs1.len(),
{
    if evs1.len() == 0 {
        assert(evs1 + evs2 =~= evs2);
        assert(spec_filter_date(evs1, not_after, not_before) + spec_filter_date(
            evs2,
            not_after,
            not_before,
        ) =~= spec_filter_date(evs2, not_after, not_before));
    } else {
        lemma_filter_date_append(evs1.drop_first(), evs2, not_after, not_before);
        assert((evs1 + evs2).drop_first() =~= evs1.drop_first() + evs2);
        assert((evs1 + evs2).first() == evs1.first());
        if spec_in_range(evs1.first().spec_date(), not_after, not_before) {
            assert(seq![evs1.first()] + (spec_filter_date(evs1.drop_first(), not_after, not_before)
                + spec_filter_date(evs2, not_after, not_before)) =~= (seq![evs1.first()]
                + spec_filter_date(evs1.drop_first(), not_after, not_before)) + spec_filter_date(
                evs2,
                not_after,
                not_before,
            ));
        }
    }
}

} // verus!
