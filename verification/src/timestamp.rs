//! Event timestamps.
//!
//! A log line carries its time in one of two source formats: an ISO-8601
//! date-time with a numeric UTC offset (`YYYY-MM-DDTHH:MM:SS+HHMM`), or a
//! local date-time without an offset (`YYYY-MM-DD HH:MM`). An
//! offset-carrying time is converted to the local time zone when the
//! event is built; either way the event stores a plain local stamp, to
//! minute precision, and remembers which source format it came from.

use vstd::prelude::*;
use crate::chars::{exec_digit_char, exec_digit_val, exec_is_digit, four_digit_val, four_digits,
    is_digit, lemma_four_digits_of_val, lemma_four_digits_roundtrip, lemma_two_digits_of_val,
    lemma_two_digits_roundtrip, two_digit_val, two_digits};
use crate::date::{valid_date, Date};

verus! {

/// A local calendar date and time of day, to minute precision.
#[derive(Clone, Copy, PartialEq, Eq, Structural, Debug)]
pub struct LocalStamp {
    pub year: u16,
    pub month: u8,
    pub day: u8,
    pub hour: u8,
    pub minute: u8,
}

impl LocalStamp {
    /// A valid calendar date with a four-digit year, and a valid time of day.
    pub open spec fn wf(self) -> bool {
        &&& valid_date(self.year as int, self.month as int, self.day as int)
        &&& self.year <= 9999
        &&& self.hour < 24
        &&& self.minute < 60
    }

    /// The stamp's calendar date.
    pub open spec fn spec_date(self) -> Date {
        Date { year: self.year, month: self.month, day: self.day }
    }

    pub fn date(self) -> (r: Date)
        ensures
            r == self.spec_date(),
    {
        Date { year: self.year, month: self.month, day: self.day }
    }

    /// Decides the stamp's invariant; rendering asks for it.
    pub fn exec_wf(self) -> (r: bool)
        ensures
            r == self.wf(),
    {
        crate::date::exec_valid_date(self.year, self.month, self.day) && self.year <= 9999
            && self.hour < 24 && self.minute < 60
    }
}

/// An event's timestamp: converted from an offset-carrying source time,
/// or taken verbatim from an offset-less one. Both variants hold a local
/// stamp; the tag records which source format the line used.
#[derive(Clone, Copy, PartialEq, Eq, Structural, Debug)]
pub enum PacmanDateTime {
    WithTimezone(LocalStamp),
    WithoutTimezone(LocalStamp),
}

impl PacmanDateTime {
    pub open spec fn stamp(self) -> LocalStamp {
        match self {
            PacmanDateTime::WithTimezone(s) => s,
            PacmanDateTime::WithoutTimezone(s) => s,
        }
    }

    pub open spec fn wf(self) -> bool {
        self.stamp().wf()
    }

    pub fn exec_stamp(&self) -> (r: LocalStamp)
        ensures
            r == self.stamp(),
    {
        match self {
            PacmanDateTime::WithTimezone(s) => *s,
            PacmanDateTime::WithoutTimezone(s) => *s,
        }
    }

    /// The display form of the timestamp, `YYYY-MM-DD HH:MM`, the same
    /// for both variants.
    pub fn display_string(&self) -> (r: String)
        requires
            self.stamp().wf(),
        ensures
            r@ == ts_display(self.stamp()),
    {
        let mut out: Vec<char> = Vec::new();
        push_ts_display(&mut out, self.exec_stamp());
        crate::chars::chars_to_string(&out)
    }
}

// ---------------------------------------------------------------------------
// Display
// ---------------------------------------------------------------------------

/// How a stamp is displayed: `YYYY-MM-DD HH:MM`, all fields zero padded.
pub open spec fn ts_display(st: LocalStamp) -> Seq<char> {
    four_digits(st.year as int) + seq!['-'] + two_digits(st.month as int) + seq!['-'] + two_digits(
        st.day as int,
    ) + seq![' '] + two_digits(st.hour as int) + seq![':'] + two_digits(st.minute as int)
}

/// Appends the two decimal digits of `n` to `out`.
pub fn push_two_digits(out: &mut Vec<char>, n: u8)
    requires
        n < 100,
    ensures
        final(out)@ == old(out)@ + two_digits(n as int),
{
    out.push(exec_digit_char((n / 10) as u16));
    out.push(exec_digit_char((n % 10) as u16));
    proof {
        assert(out@ =~= old(out)@ + two_digits(n as int));
    }
}

/// Appends the four decimal digits of `n` to `out`.
pub fn push_four_digits(out: &mut Vec<char>, n: u16)
    requires
        n <= 9999,
    ensures
        final(out)@ == old(out)@ + four_digits(n as int),
{
    out.push(exec_digit_char(n / 1000));
    out.push(exec_digit_char(n / 100 % 10));
    out.push(exec_digit_char(n / 10 % 10));
    out.push(exec_digit_char(n % 10));
    proof {
        assert(out@ =~= old(out)@ + four_digits(n as int));
    }
}

/// Appends the display form of a stamp to `out`.
pub fn push_ts_display(out: &mut Vec<char>, st: LocalStamp)
    requires
        st.wf(),
    ensures
        final(out)@ == old(out)@ + ts_display(st),
{
    push_four_digits(out, st.year);
    out.push('-');
    push_two_digits(out, st.month);
    out.push('-');
    push_two_digits(out, st.day);
    out.push(' ');
    push_two_digits(out, st.hour);
    out.push(':');
    push_two_digits(out, st.minute);
    proof {
        assert(out@ =~= old(out)@ + ts_display(st));
    }
}

// ---------------------------------------------------------------------------
// Parsing
// ---------------------------------------------------------------------------

/// A timestamp as read from a line, before any time-zone conversion.
#[derive(Clone, Copy, PartialEq, Eq, Structural, Debug)]
pub enum TsParts {
    Aware {
        year: u16,
        month: u8,
        day: u8,
        hour: u8,
        minute: u8,
        second: u8,
        offset_minutes: i32,
    },
    Naive { stamp: LocalStamp },
}

/// The shape `YYYY-MM-DDTHH:MM:SS+HHMM` (the sign may be `+` or `-`).
pub open spec fn aware_shape(s: Seq<char>) -> bool {
    &&& s.len() == 24
    &&& is_digit(s[0]) && is_digit(s[1]) && is_digit(s[2]) && is_digit(s[3])
    &&& s[4] == '-'
    &&& is_digit(s[5]) && is_digit(s[6])
    &&& s[7] == '-'
    &&& is_digit(s[8]) && is_digit(s[9])
    &&& s[10] == 'T'
    &&& is_digit(s[11]) && is_digit(s[12])
    &&& s[13] == ':'
    &&& is_digit(s[14]) && is_digit(s[15])
    &&& s[16] == ':'
    &&& is_digit(s[17]) && is_digit(s[18])
    &&& (s[19] == '+' || s[19] == '-')
    &&& is_digit(s[20]) && is_digit(s[21]) && is_digit(s[22]) && is_digit(s[23])
}

/// The shape `YYYY-MM-DD HH:MM`.
pub open spec fn naive_shape(s: Seq<char>) -> bool {
    &&& s.len() == 16
    &&& is_digit(s[0]) && is_digit(s[1]) && is_digit(s[2]) && is_digit(s[3])
    &&& s[4] == '-'
    &&& is_digit(s[5]) && is_digit(s[6])
    &&& s[7] == '-'
    &&& is_digit(s[8]) && is_digit(s[9])
    &&& s[10] == ' '
    &&& is_digit(s[11]) && is_digit(s[12])
    &&& s[13] == ':'
    &&& is_digit(s[14]) && is_digit(s[15])
}

/// The signed offset, in minutes, written in positions 19..24.
pub open spec fn spec_offset_minutes(s: Seq<char>) -> int {
    let m = two_digit_val(s, 20) * 60 + two_digit_val(s, 22);
    if s[19] == '+' {
        m
    } else {
        -m
    }
}

/// The field values of an offset-carrying timestamp are in range. The
/// year is kept clear of the four-digit bounds so that the later
/// time-zone conversion cannot leave them.
pub open spec fn aware_values_valid(s: Seq<char>) -> bool {
    &&& 1 <= four_digit_val(s, 0) <= 9998
    &&& valid_date(four_digit_val(s, 0), two_digit_val(s, 5), two_digit_val(s, 8))
    &&& two_digit_val(s, 11) < 24
    &&& two_digit_val(s, 14) < 60
    &&& two_digit_val(s, 17) < 60
    &&& two_digit_val(s, 20) <= 23
    &&& two_digit_val(s, 22) <= 59
}

pub open spec fn naive_values_valid(s: Seq<char>) -> bool {
    &&& valid_date(four_digit_val(s, 0), two_digit_val(s, 5), two_digit_val(s, 8))
    &&& two_digit_val(s, 11) < 24
    &&& two_digit_val(s, 14) < 60
}

pub open spec fn naive_stamp_of(s: Seq<char>) -> LocalStamp {
    LocalStamp {
        year: four_digit_val(s, 0) as u16,
        month: two_digit_val(s, 5) as u8,
        day: two_digit_val(s, 8) as u8,
        hour: two_digit_val(s, 11) as u8,
        minute: two_digit_val(s, 14) as u8,
    }
}

/// What a raw timestamp segment denotes: the offset-carrying format is
/// tried first, then the offset-less one; a segment of neither shape, or
/// with out-of-range fields, denotes nothing.
pub open spec fn spec_parse_ts(s: Seq<char>) -> Option<TsParts> {
    if aware_shape(s) {
        if aware_values_valid(s) {
            Some(
                TsParts::Aware {
                    year: four_digit_val(s, 0) as u16,
                    month: two_digit_val(s, 5) as u8,
                    day: two_digit_val(s, 8) as u8,
                    hour: two_digit_val(s, 11) as u8,
                    minute: two_digit_val(s, 14) as u8,
                    second: two_digit_val(s, 17) as u8,
                    offset_minutes: spec_offset_minutes(s) as i32,
                },
            )
        } else {
            None
        }
    } else if naive_shape(s) {
        if naive_values_valid(s) {
            Some(TsParts::Naive { stamp: naive_stamp_of(s) })
        } else {
            None
        }
    } else {
        None
    }
}

fn read_two(v: &Vec<char>, i: usize) -> (r: u8)
    requires
        i + 2 <= v@.len(),
        is_digit(v@[i as int]),
        is_digit(v@[i as int + 1]),
    ensures
        r == two_digit_val(v@, i as int),
        r < 100,
{
    let _bound: usize = v.len();
    (exec_digit_val(v[i]) * 10 + exec_digit_val(v[i + 1])) as u8
}

fn read_four(v: &Vec<char>, i: usize) -> (r: u16)
    requires
        i + 4 <= v@.len(),
        is_digit(v@[i as int]),
        is_digit(v@[i as int + 1]),
        is_digit(v@[i as int + 2]),
        is_digit(v@[i as int + 3]),
    ensures
        r == four_digit_val(v@, i as int),
        r <= 9999,
{
    let _bound: usize = v.len();
    exec_digit_val(v[i]) * 1000 + exec_digit_val(v[i + 1]) * 100 + exec_digit_val(v[i + 2]) * 10
        + exec_digit_val(v[i + 3])
}

/// Parses a raw timestamp segment.
pub fn parse_ts(v: &Vec<char>) -> (r: Option<TsParts>)
    ensures
        r == spec_parse_ts(v@),
{
    if v.len() == 24 {
        let shape_ok = exec_is_digit(v[0]) && exec_is_digit(v[1]) && exec_is_digit(v[2])
            && exec_is_digit(v[3]) && v[4] == '-' && exec_is_digit(v[5]) && exec_is_digit(v[6])
            && v[7] == '-' && exec_is_digit(v[8]) && exec_is_digit(v[9]) && v[10] == 'T'
            && exec_is_digit(v[11]) && exec_is_digit(v[12]) && v[13] == ':' && exec_is_digit(v[14])
            && exec_is_digit(v[15]) && v[16] == ':' && exec_is_digit(v[17]) && exec_is_digit(v[18])
            && (v[19] == '+' || v[19] == '-') && exec_is_digit(v[20]) && exec_is_digit(v[21])
            && exec_is_digit(v[22]) && exec_is_digit(v[23]);
        if !shape_ok {
            return None;
        }
        let year = read_four(v, 0);
        let month = read_two(v, 5);
        let day = read_two(v, 8);
        let hour = read_two(v, 11);
        let minute = read_two(v, 14);
        let second = read_two(v, 17);
        let off_h = read_two(v, 20);
        let off_m = read_two(v, 22);
        if !(1 <= year && year <= 9998 && crate::date::exec_valid_date(year, month, day)
            && hour < 24 && minute < 60 && second < 60 && off_h <= 23 && off_m <= 59) {
            return None;
        }
        let magnitude: i32 = (off_h as i32) * 60 + (off_m as i32);
        let offset_minutes: i32 = if v[19] == '+' {
            magnitude
        } else {
            -magnitude
        };
        Some(TsParts::Aware { year, month, day, hour, minute, second, offset_minutes })
    } else if v.len() == 16 {
        let shape_ok = exec_is_digit(v[0]) && exec_is_digit(v[1]) && exec_is_digit(v[2])
            && exec_is_digit(v[3]) && v[4] == '-' && exec_is_digit(v[5]) && exec_is_digit(v[6])
            && v[7] == '-' && exec_is_digit(v[8]) && exec_is_digit(v[9]) && v[10] == ' '
            && exec_is_digit(v[11]) && exec_is_digit(v[12]) && v[13] == ':' && exec_is_digit(v[14])
            && exec_is_digit(v[15]);
        if !shape_ok {
            return None;
        }
        let year = read_four(v, 0);
        let month = read_two(v, 5);
        let day = read_two(v, 8);
        let hour = read_two(v, 11);
        let minute = read_two(v, 14);
        if !(crate::date::exec_valid_date(year, month, day) && hour < 24 && minute < 60) {
            return None;
        }
        Some(TsParts::Naive { stamp: LocalStamp { year, month, day, hour, minute } })
    } else {
        None
    }
}

/// The display of a well-formed stamp re-parses as exactly that stamp, in
/// the offset-less format.
pub proof fn lemma_ts_display_parses(st: LocalStamp)
    requires
        st.wf(),
    ensures
        spec_parse_ts(ts_display(st)) == Some(TsParts::Naive { stamp: st }),
        forall|k: int| 0 <= k < 16 ==> #[trigger] ts_display(st)[k] != ']',
{
    let s = ts_display(st);
    let fd = four_digits(st.year as int);
    let mo = two_digits(st.month as int);
    let dy = two_digits(st.day as int);
    let hr = two_digits(st.hour as int);
    let mi = two_digits(st.minute as int);
    lemma_four_digits_roundtrip(st.year as int);
    lemma_two_digits_roundtrip(st.month as int);
    lemma_two_digits_roundtrip(st.day as int);
    lemma_two_digits_roundtrip(st.hour as int);
    lemma_two_digits_roundtrip(st.minute as int);
    assert(s[0] == fd[0] && s[1] == fd[1] && s[2] == fd[2] && s[3] == fd[3]);
    assert(s[4] == '-');
    assert(s[5] == mo[0] && s[6] == mo[1]);
    assert(s[7] == '-');
    assert(s[8] == dy[0] && s[9] == dy[1]);
    assert(s[10] == ' ');
    assert(s[11] == hr[0] && s[12] == hr[1]);
    assert(s[13] == ':');
    assert(s[14] == mi[0] && s[15] == mi[1]);
    assert(naive_shape(s));
    assert(four_digit_val(s, 0) == four_digit_val(fd, 0));
    assert(two_digit_val(s, 5) == two_digit_val(mo, 0));
    assert(two_digit_val(s, 8) == two_digit_val(dy, 0));
    assert(two_digit_val(s, 11) == two_digit_val(hr, 0));
    assert(two_digit_val(s, 14) == two_digit_val(mi, 0));
    assert(naive_values_valid(s));
    assert(naive_stamp_of(s) == st);
    assert forall|k: int| 0 <= k < 16 implies #[trigger] s[k] != ']' by {
        if k == 4 || k == 7 {
            assert(s[k] == '-');
        } else if k == 10 {
            assert(s[k] == ' ');
        } else if k == 13 {
            assert(s[k] == ':');
        } else {
            assert(is_digit(s[k]));
        }
    }
}

/// Re-displaying a parsed offset-less timestamp gives back its text:
/// the display format and the source format coincide.
pub proof fn lemma_ts_format_inverts(s: Seq<char>)
    requires
        naive_shape(s),
        naive_values_valid(s),
    ensures
        ts_display(naive_stamp_of(s)) == s,
{
    lemma_four_digits_of_val(s, 0);
    lemma_two_digits_of_val(s, 5);
    lemma_two_digits_of_val(s, 8);
    lemma_two_digits_of_val(s, 11);
    lemma_two_digits_of_val(s, 14);
    let st = naive_stamp_of(s);
    assert(st.year as int == four_digit_val(s, 0));
    assert(st.month as int == two_digit_val(s, 5));
    assert(st.day as int == two_digit_val(s, 8));
    assert(st.hour as int == two_digit_val(s, 11));
    assert(st.minute as int == two_digit_val(s, 14));
    assert(ts_display(st) =~= s);
}

// ---------------------------------------------------------------------------
// Time-zone conversion
// ---------------------------------------------------------------------------

/// Relies on chrono: `DateTime::with_timezone(&chrono::Local)` re-expresses
/// a fixed-offset instant in the machine's local time zone. The result is
/// always a valid calendar date and time of day; both the source offset
/// and the local offset are under one day, so the local year differs from
/// the source year by at most one and stays within four digits.
#[verifier::external_body]
pub fn to_local_stamp(
    year: u16,
    month: u8,
    day: u8,
    hour: u8,
    minute: u8,
    second: u8,
    offset_minutes: i32,
) -> (r: LocalStamp)
    requires
        1 <= year <= 9998,
        valid_date(year as int, month as int, day as int),
        hour < 24,
        minute < 60,
        second < 60,
        -1439 <= offset_minutes <= 1439,
    ensures
        r.wf(),
{
    let date = chrono::NaiveDate::from_ymd_opt(year as i32, month as u32, day as u32).unwrap();
    let ndt = date.and_hms_opt(hour as u32, minute as u32, second as u32).unwrap();
    let off = chrono::FixedOffset::east_opt(offset_minutes * 60).unwrap();
    let dt = chrono::TimeZone::from_local_datetime(&off, &ndt).unwrap();
    let local = dt.with_timezone(&chrono::Local);
    LocalStamp {
        year: chrono::Datelike::year(&local) as u16,
        month: chrono::Datelike::month(&local) as u8,
        day: chrono::Datelike::day(&local) as u8,
        hour: chrono::Timelike::hour(&local) as u8,
        minute: chrono::Timelike::minute(&local) as u8,
    }
}

} // verus!
