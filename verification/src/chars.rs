//! Character classes of the log grammar, decimal-digit helpers, and
//! conversions between `&str`/`String` and `Vec<char>`.

use vstd::prelude::*;

verus! {

// ---------------------------------------------------------------------------
// Character classes
// ---------------------------------------------------------------------------

/// ASCII lowercase letter.
pub open spec fn is_lower(c: char) -> bool {
    'a' <= c && c <= 'z'
}

/// ASCII letter, either case; the class the action word is drawn from.
pub open spec fn is_alpha(c: char) -> bool {
    ('a' <= c && c <= 'z') || ('A' <= c && c <= 'Z')
}

/// ASCII decimal digit.
pub open spec fn is_digit(c: char) -> bool {
    '0' <= c && c <= '9'
}

/// A character allowed to start a package name: `[a-z0-9@_+]`.
pub open spec fn is_name_start(c: char) -> bool {
    is_lower(c) || is_digit(c) || c == '@' || c == '_' || c == '+'
}

/// A character allowed inside a package name: `[a-z0-9@._+-]`.
pub open spec fn is_name_char(c: char) -> bool {
    is_lower(c) || is_digit(c) || c == '@' || c == '.' || c == '_' || c == '+' || c == '-'
}

/// A character allowed in a version token: `[a-z0-9.:+-]`.
pub open spec fn is_version_char(c: char) -> bool {
    is_lower(c) || is_digit(c) || c == '.' || c == ':' || c == '+' || c == '-'
}

/// A well-formed package name: non-empty, a start character followed by
/// name characters.
pub open spec fn valid_name(s: Seq<char>) -> bool {
    &&& s.len() > 0
    &&& is_name_start(s[0])
    &&& forall|i: int| 1 <= i < s.len() ==> is_name_char(#[trigger] s[i])
}

/// A well-formed version token: non-empty, all version characters.
pub open spec fn valid_version_token(s: Seq<char>) -> bool {
    &&& s.len() > 0
    &&& forall|i: int| 0 <= i < s.len() ==> is_version_char(#[trigger] s[i])
}

pub fn exec_is_lower(c: char) -> (r: bool)
    ensures
        r == is_lower(c),
{
    'a' <= c && c <= 'z'
}

pub fn exec_is_alpha(c: char) -> (r: bool)
    ensures
        r == is_alpha(c),
{
    ('a' <= c && c <= 'z') || ('A' <= c && c <= 'Z')
}

pub fn exec_is_digit(c: char) -> (r: bool)
    ensures
        r == is_digit(c),
{
    '0' <= c && c <= '9'
}

pub fn exec_is_name_start(c: char) -> (r: bool)
    ensures
        r == is_name_start(c),
{
    exec_is_lower(c) || exec_is_digit(c) || c == '@' || c == '_' || c == '+'
}

pub fn exec_is_name_char(c: char) -> (r: bool)
    ensures
        r == is_name_char(c),
{
    exec_is_lower(c) || exec_is_digit(c) || c == '@' || c == '.' || c == '_' || c == '+' || c == '-'
}

pub fn exec_is_version_char(c: char) -> (r: bool)
    ensures
        r == is_version_char(c),
{
    exec_is_lower(c) || exec_is_digit(c) || c == '.' || c == ':' || c == '+' || c == '-'
}

// ---------------------------------------------------------------------------
// Decimal digits
// ---------------------------------------------------------------------------

/// The character for one decimal digit.
pub open spec fn digit_char(d: int) -> char {
    if d == 0 {
        '0'
    } else if d == 1 {
        '1'
    } else if d == 2 {
        '2'
    } else if d == 3 {
        '3'
    } else if d == 4 {
        '4'
    } else if d == 5 {
        '5'
    } else if d == 6 {
        '6'
    } else if d == 7 {
        '7'
    } else if d == 8 {
        '8'
    } else {
        '9'
    }
}

/// The value of one decimal digit character.
pub open spec fn digit_val(c: char) -> int {
    if c == '0' {
        0
    } else if c == '1' {
        1
    } else if c == '2' {
        2
    } else if c == '3' {
        3
    } else if c == '4' {
        4
    } else if c == '5' {
        5
    } else if c == '6' {
        6
    } else if c == '7' {
        7
    } else if c == '8' {
        8
    } else {
        9
    }
}

pub proof fn lemma_char_roundtrip(c: char)
    requires
        is_digit(c),
    ensures
        0 <= digit_val(c) <= 9,
        digit_char(digit_val(c)) == c,
{
}

/// Two decimal digits, zero padded.
pub open spec fn two_digits(n: int) -> Seq<char> {
    seq![digit_char(n / 10), digit_char(n % 10)]
}

/// Four decimal digits, zero padded.
pub open spec fn four_digits(n: int) -> Seq<char> {
    seq![
        digit_char(n / 1000),
        digit_char(n / 100 % 10),
        digit_char(n / 10 % 10),
        digit_char(n % 10),
    ]
}

/// The value of the two digit characters at `i`.
pub open spec fn two_digit_val(s: Seq<char>, i: int) -> int {
    digit_val(s[i]) * 10 + digit_val(s[i + 1])
}

/// The value of the four digit characters at `i`.
pub open spec fn four_digit_val(s: Seq<char>, i: int) -> int {
    digit_val(s[i]) * 1000 + digit_val(s[i + 1]) * 100 + digit_val(s[i + 2]) * 10 + digit_val(
        s[i + 3],
    )
}

pub proof fn lemma_two_digits_roundtrip(n: int)
    requires
        0 <= n <= 99,
    ensures
        two_digits(n).len() == 2,
        is_digit(two_digits(n)[0]),
        is_digit(two_digits(n)[1]),
        two_digit_val(two_digits(n), 0) == n,
{
}

pub proof fn lemma_four_digits_roundtrip(n: int)
    requires
        0 <= n <= 9999,
    ensures
        four_digits(n).len() == 4,
        forall|i: int| 0 <= i < 4 ==> is_digit(#[trigger] four_digits(n)[i]),
        four_digit_val(four_digits(n), 0) == n,
{
    assert(n / 1000 * 1000 + n / 100 % 10 * 100 + n / 10 % 10 * 10 + n % 10 == n) by (nonlinear_arith)
        requires 0 <= n <= 9999;
}

/// Formatting inverts reading: the two digit characters at `i` are the
/// two-digit display of their value.
pub proof fn lemma_two_digits_of_val(s: Seq<char>, i: int)
    requires
        0 <= i,
        i + 2 <= s.len(),
        is_digit(s[i]),
        is_digit(s[i + 1]),
    ensures
        two_digits(two_digit_val(s, i)) == seq![s[i], s[i + 1]],
{
    let a = digit_val(s[i]);
    let b = digit_val(s[i + 1]);
    lemma_char_roundtrip(s[i]);
    lemma_char_roundtrip(s[i + 1]);
    assert((a * 10 + b) / 10 == a && (a * 10 + b) % 10 == b) by (nonlinear_arith)
        requires
            0 <= a <= 9,
            0 <= b <= 9,
    ;
    assert(two_digits(two_digit_val(s, i)) =~= seq![s[i], s[i + 1]]);
}

/// Formatting inverts reading: the four digit characters at `i` are the
/// four-digit display of their value.
pub proof fn lemma_four_digits_of_val(s: Seq<char>, i: int)
    requires
        0 <= i,
        i + 4 <= s.len(),
        is_digit(s[i]),
        is_digit(s[i + 1]),
        is_digit(s[i + 2]),
        is_digit(s[i + 3]),
    ensures
        four_digits(four_digit_val(s, i)) == seq![s[i], s[i + 1], s[i + 2], s[i + 3]],
{
    let a = digit_val(s[i]);
    let b = digit_val(s[i + 1]);
    let c = digit_val(s[i + 2]);
    let d = digit_val(s[i + 3]);
    lemma_char_roundtrip(s[i]);
    lemma_char_roundtrip(s[i + 1]);
    lemma_char_roundtrip(s[i + 2]);
    lemma_char_roundtrip(s[i + 3]);
    let n = a * 1000 + b * 100 + c * 10 + d;
    assert(n / 1000 == a && n / 100 % 10 == b && n / 10 % 10 == c && n % 10 == d)
        by (nonlinear_arith)
        requires
            0 <= a <= 9,
            0 <= b <= 9,
            0 <= c <= 9,
            0 <= d <= 9,
            n == a * 1000 + b * 100 + c * 10 + d,
    ;
    assert(four_digits(four_digit_val(s, i)) =~= seq![s[i], s[i + 1], s[i + 2], s[i + 3]]);
}

pub fn exec_digit_char(d: u16) -> (c: char)
    requires
        d <= 9,
    ensures
        c == digit_char(d as int),
{
    match d {
        0 => '0',
        1 => '1',
        2 => '2',
        3 => '3',
        4 => '4',
        5 => '5',
        6 => '6',
        7 => '7',
        8 => '8',
        _ => '9',
    }
}

pub fn exec_digit_val(c: char) -> (d: u16)
    requires
        is_digit(c),
    ensures
        d <= 9,
        d == digit_val(c),
{
    match c {
        '0' => 0,
        '1' => 1,
        '2' => 2,
        '3' => 3,
        '4' => 4,
        '5' => 5,
        '6' => 6,
        '7' => 7,
        '8' => 8,
        _ => 9,
    }
}

// ---------------------------------------------------------------------------
// String conversions
// ---------------------------------------------------------------------------

/// The characters of a string slice, as a vector.
pub fn str_to_chars(s: &str) -> (r: Vec<char>)
    ensures
        r@ == s@,
{
    let n = s.unicode_len();
    let mut r: Vec<char> = Vec::new();
    let mut i: usize = 0;
    while i < n
        invariant
            n == s@.len(),
            i <= n,
            r@ == s@.subrange(0, i as int),
        decreases n - i,
    {
        r.push(s.get_char(i));
        i = i + 1;
        proof {
            assert(r@ =~= s@.subrange(0, i as int));
        }
    }
    proof {
        assert(r@ =~= s@);
    }
    r
}

/// Relies on `String: FromIterator<char>` (std): collecting characters
/// yields the string with exactly those characters in order.
#[verifier::external_body]
pub fn chars_to_string(v: &Vec<char>) -> (r: String)
    ensures
        r@ == v@,
{
    v.iter().collect()
}

/// Copies the characters of `v` in `lo..hi` into a fresh vector.
pub fn copy_range(v: &Vec<char>, lo: usize, hi: usize) -> (r: Vec<char>)
    requires
        lo <= hi <= v@.len(),
    ensures
        r@ == v@.subrange(lo as int, hi as int),
{
    let mut r: Vec<char> = Vec::new();
    let mut i: usize = lo;
    while i < hi
        invariant
            lo <= i <= hi <= v@.len(),
            r@ == v@.subrange(lo as int, i as int),
        decreases hi - i,
    {
        r.push(v[i]);
        i = i + 1;
        proof {
            assert(r@ =~= v@.subrange(lo as int, i as int));
        }
    }
    r
}

} // verus!
