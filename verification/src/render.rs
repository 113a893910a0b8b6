//! Rendering one event as a line of text.
//!
//! The plain form is
//!
//! ```text
//! [YYYY-MM-DD HH:MM] <action-word> <name> (<version display>)
//! ```
//!
//! without a trailing newline. The styled form is the same text cut into
//! segments, each tagged with the style it is shown in on a terminal;
//! concatenating the segment texts always gives back the plain form, so a
//! non-terminal destination that ignores the tags sees byte-identical
//! plain output.

use vstd::prelude::*;
use crate::chars::chars_to_string;
use crate::paclog::{action_word, arrow_seq, version_rule, PackageChange, PacmanAction};
use crate::timestamp::{push_ts_display, ts_display, LocalStamp};

verus! {

/// The style a segment is shown in on a terminal.
#[derive(Clone, Copy, PartialEq, Eq, Structural, Debug)]
pub enum Style {
    /// Dimmed neutral: the bracketed timestamp.
    Dim,
    /// Green: the word `installed`.
    Green,
    /// Cyan: the word `upgraded`, and a current version.
    Cyan,
    /// Magenta: the word `downgraded`, and a previous version.
    Magenta,
    /// Red: the word `removed`.
    Red,
    /// Bold bright yellow: the package name.
    BoldYellow,
    /// Unstyled: punctuation.
    Plain,
}

/// The color of each action word.
pub open spec fn action_style(a: PacmanAction) -> Style {
    match a {
        PacmanAction::Installed => Style::Green,
        PacmanAction::Upgraded => Style::Cyan,
        PacmanAction::Downgraded => Style::Magenta,
        PacmanAction::Removed => Style::Red,
    }
}

/// How the version fields are displayed: the current version alone, the
/// previous alone, or both joined by ` -> `.
pub open spec fn ver_display(prev: Option<Seq<char>>, curr: Option<Seq<char>>) -> Seq<char> {
    match (prev, curr) {
        (Option::None, Option::Some(c)) => c,
        (Option::Some(p), Option::Some(c)) => p + arrow_seq() + c,
        (Option::Some(p), Option::None) => p,
        (Option::None, Option::None) => Seq::empty(),
    }
}

/// Everything after the bracketed timestamp and its separating space.
pub open spec fn rendered_tail(e: PackageChange) -> Seq<char> {
    action_word(e.action) + seq![' '] + e.name@ + seq![' ', '('] + ver_display(
        e.prev_view(),
        e.curr_view(),
    ) + seq![')']
}

/// The plain rendered line of an event, without a trailing newline.
pub open spec fn spec_render_plain(e: PackageChange) -> Seq<char> {
    seq!['['] + ts_display(e.datetime.stamp()) + seq![']', ' '] + rendered_tail(e)
}

/// Appends all characters of `piece` to `out`.
fn push_all(out: &mut Vec<char>, piece: &Vec<char>)
    ensures
        final(out)@ == old(out)@ + piece@,
{
    let mut k: usize = 0;
    while k < piece.len()
        invariant
            k <= piece@.len(),
            out@ == old(out)@ + piece@.subrange(0, k as int),
        decreases piece@.len() - k,
    {
        out.push(piece[k]);
        k = k + 1;
        proof {
            assert(out@ =~= old(out)@ + piece@.subrange(0, k as int));
        }
    }
    proof {
        assert(out@ =~= old(out)@ + piece@);
    }
}

/// Appends all characters of the string `piece` to `out`.
fn push_str_chars(out: &mut Vec<char>, piece: &str)
    ensures
        final(out)@ == old(out)@ + piece@,
{
    let v = crate::chars::str_to_chars(piece);
    push_all(out, &v);
}

/// Appends the action word to `out`.
fn push_action_word(out: &mut Vec<char>, a: PacmanAction)
    ensures
        final(out)@ == old(out)@ + action_word(a),
{
    match a {
        PacmanAction::Installed => {
            out.push('i');
            out.push('n');
            out.push('s');
            out.push('t');
            out.push('a');
            out.push('l');
            out.push('l');
            out.push('e');
            out.push('d');
        },
        PacmanAction::Upgraded => {
            out.push('u');
            out.push('p');
            out.push('g');
            out.push('r');
            out.push('a');
            out.push('d');
            out.push('e');
            out.push('d');
        },
        PacmanAction::Downgraded => {
            out.push('d');
            out.push('o');
            out.push('w');
            out.push('n');
            out.push('g');
            out.push('r');
            out.push('a');
            out.push('d');
            out.push('e');
            out.push('d');
        },
        PacmanAction::Removed => {
            out.push('r');
            out.push('e');
            out.push('m');
            out.push('o');
            out.push('v');
            out.push('e');
            out.push('d');
        },
    }
    proof {
        assert(out@ =~= old(out)@ + action_word(a));
    }
}

/// Appends the version display of the event to `out`.
fn push_ver_display(out: &mut Vec<char>, e: &PackageChange)
    ensures
        final(out)@ == old(out)@ + ver_display(e.prev_view(), e.curr_view()),
{
    match (&e.previous_version, &e.current_version) {
        (Option::None, Option::Some(c)) => {
            push_str_chars(out, c.as_str());
        },
        (Option::Some(p), Option::Some(c)) => {
            push_str_chars(out, p.as_str());
            out.push(' ');
            out.push('-');
            out.push('>');
            out.push(' ');
            push_str_chars(out, c.as_str());
        },
        (Option::Some(p), Option::None) => {
            push_str_chars(out, p.as_str());
        },
        (Option::None, Option::None) => {},
    }
    proof {
        assert(out@ =~= old(out)@ + ver_display(e.prev_view(), e.curr_view()));
    }
}

impl PackageChange {
    /// Renders the event as its plain line, without color and without a
    /// trailing newline.
    pub fn render_plain(&self) -> (r: String)
        requires
            self.datetime.stamp().wf(),
        ensures
            r@ == spec_render_plain(*self),
    {
        let mut out: Vec<char> = Vec::new();
        out.push('[');
        push_ts_display(&mut out, self.datetime.exec_stamp());
        out.push(']');
        out.push(' ');
        push_action_word(&mut out, self.action);
        out.push(' ');
        push_str_chars(&mut out, self.name.as_str());
        out.push(' ');
        out.push('(');
        push_ver_display(&mut out, self);
        out.push(')');
        proof {
            assert(out@ =~= spec_render_plain(*self));
        }
        chars_to_string(&out)
    }
}

/// One styled piece of a rendered line.
pub struct Segment {
    pub text: String,
    pub style: Style,
}

/// The view of a segment: its characters and its style.
pub open spec fn seg_view(s: Segment) -> (Seq<char>, Style) {
    (s.text@, s.style)
}

/// The styled pieces of an event's line: the bracketed timestamp dimmed,
/// the action word (with its surrounding spaces) in the action's color,
/// the name bold yellow, previous and current versions in magenta and
/// cyan, and the punctuation unstyled.
pub open spec fn spec_segments(e: PackageChange) -> Seq<(Seq<char>, Style)> {
    let head = seq![
        (seq!['['] + ts_display(e.datetime.stamp()) + seq![']'], Style::Dim),
        (seq![' '] + action_word(e.action) + seq![' '], action_style(e.action)),
        (e.name@, Style::BoldYellow),
        (seq![' ', '('], Style::Plain),
    ];
    let vers: Seq<(Seq<char>, Style)> = match (e.prev_view(), e.curr_view()) {
        (Option::None, Option::Some(c)) => seq![(c, Style::Cyan)],
        (Option::Some(p), Option::Some(c)) => seq![
            (p, Style::Magenta),
            (arrow_seq(), Style::Plain),
            (c, Style::Cyan),
        ],
        (Option::Some(p), Option::None) => seq![(p, Style::Magenta)],
        (Option::None, Option::None) => seq![],
    };
    head + vers + seq![(seq![')'], Style::Plain)]
}

/// The concatenation of the texts of a segment list.
pub open spec fn concat_texts(segs: Seq<(Seq<char>, Style)>) -> Seq<char>
    decreases segs.len(),
{
    if segs.len() == 0 {
        Seq::empty()
    } else {
        concat_texts(segs.drop_last()) + segs.last().0
    }
}

proof fn lemma_concat_push(s: Seq<(Seq<char>, Style)>, x: (Seq<char>, Style))
    ensures
        concat_texts(s.push(x)) == concat_texts(s) + x.0,
{
    assert(s.push(x).drop_last() =~= s);
    assert(s.push(x).last() == x);
}

/// Concatenating an event's segment texts gives exactly its plain line:
/// the styling never adds, drops or reorders a character.
pub proof fn lemma_segments_concat(e: PackageChange)
    requires
        version_rule(e.action, e.prev_view(), e.curr_view()),
    ensures
        concat_texts(spec_segments(e)) == spec_render_plain(e),
{
    let segs = spec_segments(e);
    let t0 = (seq!['['] + ts_display(e.datetime.stamp()) + seq![']'], Style::Dim);
    let t1 = (seq![' '] + action_word(e.action) + seq![' '], action_style(e.action));
    let t2 = (e.name@, Style::BoldYellow);
    let t3 = (seq![' ', '('], Style::Plain);
    let tz = (seq![')'], Style::Plain);
    let s0 = Seq::<(Seq<char>, Style)>::empty();
    let head = s0.push(t0).push(t1).push(t2).push(t3);
    lemma_concat_push(s0, t0);
    lemma_concat_push(s0.push(t0), t1);
    lemma_concat_push(s0.push(t0).push(t1), t2);
    lemma_concat_push(s0.push(t0).push(t1).push(t2), t3);
    match (e.prev_view(), e.curr_view()) {
        (Option::None, Option::Some(c)) => {
            let full = head.push((c, Style::Cyan)).push(tz);
            lemma_concat_push(head, (c, Style::Cyan));
            lemma_concat_push(head.push((c, Style::Cyan)), tz);
            assert(segs =~= full);
            assert(concat_texts(full) =~= spec_render_plain(e));
        },
        (Option::Some(p), Option::Some(c)) => {
            let s5 = head.push((p, Style::Magenta));
            let s6 = s5.push((arrow_seq(), Style::Plain));
            let s7 = s6.push((c, Style::Cyan));
            let full = s7.push(tz);
            lemma_concat_push(head, (p, Style::Magenta));
            lemma_concat_push(s5, (arrow_seq(), Style::Plain));
            lemma_concat_push(s6, (c, Style::Cyan));
            lemma_concat_push(s7, tz);
            assert(segs =~= full);
            assert(concat_texts(full) =~= spec_render_plain(e));
        },
        (Option::Some(p), Option::None) => {
            let full = head.push((p, Style::Magenta)).push(tz);
            lemma_concat_push(head, (p, Style::Magenta));
            lemma_concat_push(head.push((p, Style::Magenta)), tz);
            assert(segs =~= full);
            assert(concat_texts(full) =~= spec_render_plain(e));
        },
        (Option::None, Option::None) => {},
    }
}

impl PackageChange {
    /// Renders the event as styled segments for a terminal.
    pub fn render_segments(&self) -> (r: Vec<Segment>)
        requires
            self.datetime.stamp().wf(),
        ensures
            r@.map_values(|s: Segment| seg_view(s)) == spec_segments(*self),
    {
        let mut segs: Vec<Segment> = Vec::new();
        let mut ts_text: Vec<char> = Vec::new();
        ts_text.push('[');
        push_ts_display(&mut ts_text, self.datetime.exec_stamp());
        ts_text.push(']');
        proof {
            assert(ts_text@ =~= seq!['['] + ts_display(self.datetime.stamp()) + seq![']']);
        }
        segs.push(Segment { text: chars_to_string(&ts_text), style: Style::Dim });

        let mut word: Vec<char> = Vec::new();
        word.push(' ');
        push_action_word(&mut word, self.action);
        word.push(' ');
        let word_style = match self.action {
            PacmanAction::Installed => Style::Green,
            PacmanAction::Upgraded => Style::Cyan,
            PacmanAction::Downgraded => Style::Magenta,
            PacmanAction::Removed => Style::Red,
        };
        proof {
            assert(word@ =~= seq![' '] + action_word(self.action) + seq![' ']);
            assert(word_style == action_style(self.action));
        }
        segs.push(Segment { text: chars_to_string(&word), style: word_style });

        let mut name_text: Vec<char> = Vec::new();
        push_str_chars(&mut name_text, self.name.as_str());
        proof {
            assert(name_text@ =~= self.name@);
        }
        segs.push(Segment { text: chars_to_string(&name_text), style: Style::BoldYellow });

        let mut open_text: Vec<char> = Vec::new();
        open_text.push(' ');
        open_text.push('(');
        proof {
            assert(open_text@ =~= seq![' ', '(']);
        }
        segs.push(Segment { text: chars_to_string(&open_text), style: Style::Plain });

        match (&self.previous_version, &self.current_version) {
            (Option::None, Option::Some(c)) => {
                let mut t: Vec<char> = Vec::new();
                push_str_chars(&mut t, c.as_str());
                proof {
                    assert(t@ =~= c@);
                }
                segs.push(Segment { text: chars_to_string(&t), style: Style::Cyan });
            },
            (Option::Some(p), Option::Some(c)) => {
                let mut t: Vec<char> = Vec::new();
                push_str_chars(&mut t, p.as_str());
                proof {
                    assert(t@ =~= p@);
                }
                segs.push(Segment { text: chars_to_string(&t), style: Style::Magenta });
                let mut arrow: Vec<char> = Vec::new();
                arrow.push(' ');
                arrow.push('-');
                arrow.push('>');
                arrow.push(' ');
                proof {
                    assert(arrow@ =~= arrow_seq());
                }
                segs.push(Segment { text: chars_to_string(&arrow), style: Style::Plain });
                let mut t2: Vec<char> = Vec::new();
                push_str_chars(&mut t2, c.as_str());
                proof {
                    assert(t2@ =~= c@);
                }
                segs.push(Segment { text: chars_to_string(&t2), style: Style::Cyan });
            },
            (Option::Some(p), Option::None) => {
                let mut t: Vec<char> = Vec::new();
                push_str_chars(&mut t, p.as_str());
                proof {
                    assert(t@ =~= p@);
                }
                segs.push(Segment { text: chars_to_string(&t), style: Style::Magenta });
            },
            (Option::None, Option::None) => {},
        }

        let mut close_text: Vec<char> = Vec::new();
        close_text.push(')');
        proof {
            assert(close_text@ =~= seq![')']);
        }
        segs.push(Segment { text: chars_to_string(&close_text), style: Style::Plain });
        proof {
            assert(segs@.map_values(|s: Segment| seg_view(s)) =~= spec_segments(*self));
        }
        segs
    }
}

/// Renders every event of a list as its plain line, in order.
pub fn render_all(changes: &Vec<PackageChange>) -> (r: Vec<String>)
    requires
        forall|i: int| 0 <= i < changes@.len() ==> (#[trigger] changes@[i]).datetime.stamp().wf(),
    ensures
        r@.len() == changes@.len(),
        forall|i: int|
            0 <= i < changes@.len() ==> (#[trigger] r@[i])@ == spec_render_plain(changes@[i]),
{
    let mut r: Vec<String> = Vec::new();
    let mut k: usize = 0;
    while k < changes.len()
        invariant
            k <= changes@.len(),
            r@.len() == k,
            forall|i: int|
                0 <= i < changes@.len() ==> (#[trigger] changes@[i]).datetime.stamp().wf(),
            forall|i: int| 0 <= i < k ==> (#[trigger] r@[i])@ == spec_render_plain(changes@[i]),
        decreases changes@.len() - k,
    {
        r.push(changes[k].render_plain());
        k = k + 1;
    }
    r
}

} // verus!
