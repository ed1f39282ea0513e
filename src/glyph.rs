use vstd::prelude::*;
use vstd::string::StrSliceExecFns;
use vstd::string::StringExecFns;

verus! {

/// Whether the cell's text is exactly the one character `c`.
pub open spec fn is_glyph(s: Seq<char>, c: char) -> bool {
    s == seq![c]
}

/// Tests whether `s` consists of the single character `c`.
pub fn glyph_is(s: &str, c: char) -> (r: bool)
    ensures
        r == is_glyph(s@, c),
{
    if s.unicode_len() != 1 {
        return false;
    }
    let first = s.get_char(0);
    if first == c {
        assert(s@ =~= seq![c]);
        true
    } else {
        false
    }
}

pub fn is_vertical(ch: &str) -> (r: bool)
    ensures
        r == is_glyph(ch@, '|'),
{
    glyph_is(ch, '|')
}

pub fn is_horizontal(ch: &str) -> (r: bool)
    ensures
        r == is_glyph(ch@, '-'),
{
    glyph_is(ch, '-')
}

pub fn is_horizontal_dashed(ch: &str) -> (r: bool)
    ensures
        r == is_glyph(ch@, '='),
{
    glyph_is(ch, '=')
}

pub fn is_vertical_dashed(ch: &str) -> (r: bool)
    ensures
        r == is_glyph(ch@, ':'),
{
    glyph_is(ch, ':')
}

pub fn is_low_horizontal(ch: &str) -> (r: bool)
    ensures
        r == is_glyph(ch@, '_'),
{
    glyph_is(ch, '_')
}

pub fn is_low_horizontal_dashed(ch: &str) -> (r: bool)
    ensures
        r == is_glyph(ch@, '.'),
{
    glyph_is(ch, '.')
}

pub fn is_slant_left(ch: &str) -> (r: bool)
    ensures
        r == is_glyph(ch@, '\\'),
{
    glyph_is(ch, '\\')
}

pub fn is_slant_right(ch: &str) -> (r: bool)
    ensures
        r == is_glyph(ch@, '/'),
{
    glyph_is(ch, '/')
}

pub fn is_low_round(ch: &str) -> (r: bool)
    ensures
        r == is_glyph(ch@, '.'),
{
    glyph_is(ch, '.')
}

pub fn is_period(ch: &str) -> (r: bool)
    ensures
        r == is_glyph(ch@, '.'),
{
    glyph_is(ch, '.')
}

pub fn is_comma(ch: &str) -> (r: bool)
    ensures
        r == is_glyph(ch@, ','),
{
    glyph_is(ch, ',')
}

pub fn is_high_round(ch: &str) -> (r: bool)
    ensures
        r == is_glyph(ch@, '\''),
{
    glyph_is(ch, '\'')
}

pub fn is_backtick(ch: &str) -> (r: bool)
    ensures
        r == is_glyph(ch@, '`'),
{
    glyph_is(ch, '`')
}

pub fn is_intersection(ch: &str) -> (r: bool)
    ensures
        r == is_glyph(ch@, '+'),
{
    glyph_is(ch, '+')
}

pub fn is_marker(ch: &str) -> (r: bool)
    ensures
        r == is_glyph(ch@, '*'),
{
    glyph_is(ch, '*')
}

pub fn is_asterisk(ch: &str) -> (r: bool)
    ensures
        r == is_glyph(ch@, '*'),
{
    glyph_is(ch, '*')
}

pub fn is_o(ch: &str) -> (r: bool)
    ensures
        r == is_glyph(ch@, 'o'),
{
    glyph_is(ch, 'o')
}

pub fn is_arrow_up(ch: &str) -> (r: bool)
    ensures
        r == is_glyph(ch@, '^'),
{
    glyph_is(ch, '^')
}

pub fn is_arrow_left(ch: &str) -> (r: bool)
    ensures
        r == is_glyph(ch@, '<'),
{
    glyph_is(ch, '<')
}

pub fn is_arrow_right(ch: &str) -> (r: bool)
    ensures
        r == is_glyph(ch@, '>'),
{
    glyph_is(ch, '>')
}

pub fn is_open_curve(ch: &str) -> (r: bool)
    ensures
        r == is_glyph(ch@, '('),
{
    glyph_is(ch, '(')
}

pub fn is_close_curve(ch: &str) -> (r: bool)
    ensures
        r == is_glyph(ch@, ')'),
{
    glyph_is(ch, ')')
}

/// A lowered arrow head: `v` or `V`.
pub fn is_arrow_down(ch: &str) -> (r: bool)
    ensures
        r == (is_glyph(ch@, 'v') || is_glyph(ch@, 'V')),
{
    glyph_is(ch, 'v') || glyph_is(ch, 'V')
}

/// A rounded corner: `.`, `'`, `` ` `` or `,`.
pub open spec fn is_round_spec(s: Seq<char>) -> bool {
    is_glyph(s, '.') || is_glyph(s, '\'') || is_glyph(s, '`') || is_glyph(s, ',')
}

pub fn is_round(ch: &str) -> (r: bool)
    ensures
        r == is_round_spec(ch@),
{
    is_low_round(ch) || is_high_round(ch) || is_backtick(ch) || is_comma(ch)
}


/// What `escape_char` turns a cell's text into: the five XML
/// metacharacters become entity references, anything else is kept.
pub open spec fn escaped(s: Seq<char>) -> Seq<char> {
    if is_glyph(s, '"') {
        "&quot;"@
    } else if is_glyph(s, '\'') {
        "&apos;"@
    } else if is_glyph(s, '<') {
        "&lt;"@
    } else if is_glyph(s, '>') {
        "&gt;"@
    } else if is_glyph(s, '&') {
        "&amp;"@
    } else {
        s
    }
}

pub fn escape_char(ch: &str) -> (r: String)
    ensures
        r@ == escaped(ch@),
{
    if glyph_is(ch, '"') {
        String::from_str("&quot;")
    } else if glyph_is(ch, '\'') {
        String::from_str("&apos;")
    } else if glyph_is(ch, '<') {
        String::from_str("&lt;")
    } else if glyph_is(ch, '>') {
        String::from_str("&gt;")
    } else if glyph_is(ch, '&') {
        String::from_str("&amp;")
    } else {
        String::from_str(ch)
    }
}

/// Whether std classifies the character as alphanumeric (Unicode
/// `Alphabetic` or `Numeric`).
pub uninterp spec fn alphanumeric_of(c: char) -> bool;

/// Relies on `char::is_alphanumeric`, whose answer depends on the character
/// alone.
#[verifier::external_body]
fn char_is_alphanumeric(c: char) -> (r: bool)
    ensures
        r == alphanumeric_of(c),
{
    c.is_alphanumeric()
}

/// Whether every character of the cell is alphanumeric.
pub open spec fn all_alphanumeric(s: Seq<char>) -> bool {
    forall|i: int| 0 <= i < s.len() ==> alphanumeric_of(#[trigger] s[i])
}

pub fn is_alphanumeric(ch: &str) -> (r: bool)
    ensures
        r == all_alphanumeric(ch@),
{
    let n = ch.unicode_len();
    let mut i: usize = 0;
    while i < n
        invariant
            n == ch@.len(),
            i <= n,
            forall|j: int| 0 <= j < i ==> alphanumeric_of(#[trigger] ch@[j]),
        decreases n - i,
    {
        if !char_is_alphanumeric(ch.get_char(i)) {
            return false;
        }
        i = i + 1;
    }
    true
}


/// The character classes that the rules test cells against.
#[derive(Debug, Clone, Copy, PartialEq, Eq, Structural)]
pub enum Class {
    Vertical,
    Horizontal,
    HorizontalDashed,
    VerticalDashed,
    LowHorizontal,
    LowHorizontalDashed,
    SlantLeft,
    SlantRight,
    LowRound,
    Period,
    Comma,
    HighRound,
    Backtick,
    Round,
    Intersection,
    Marker,
    Asterisk,
    O,
    ArrowUp,
    ArrowDown,
    ArrowLeft,
    ArrowRight,
    OpenCurve,
    CloseCurve,
    Alphanumeric,
}

/// Whether a cell's text belongs to the class.
pub open spec fn in_class(class: Class, s: Seq<char>) -> bool {
    match class {
        Class::Vertical => is_glyph(s, '|'),
        Class::Horizontal => is_glyph(s, '-'),
        Class::HorizontalDashed => is_glyph(s, '='),
        Class::VerticalDashed => is_glyph(s, ':'),
        Class::LowHorizontal => is_glyph(s, '_'),
        Class::LowHorizontalDashed => is_glyph(s, '.'),
        Class::SlantLeft => is_glyph(s, '\\'),
        Class::SlantRight => is_glyph(s, '/'),
        Class::LowRound => is_glyph(s, '.'),
        Class::Period => is_glyph(s, '.'),
        Class::Comma => is_glyph(s, ','),
        Class::HighRound => is_glyph(s, '\''),
        Class::Backtick => is_glyph(s, '`'),
        Class::Round => is_round_spec(s),
        Class::Intersection => is_glyph(s, '+'),
        Class::Marker => is_glyph(s, '*'),
        Class::Asterisk => is_glyph(s, '*'),
        Class::O => is_glyph(s, 'o'),
        Class::ArrowUp => is_glyph(s, '^'),
        Class::ArrowDown => (is_glyph(s, 'v') || is_glyph(s, 'V')),
        Class::ArrowLeft => is_glyph(s, '<'),
        Class::ArrowRight => is_glyph(s, '>'),
        Class::OpenCurve => is_glyph(s, '('),
        Class::CloseCurve => is_glyph(s, ')'),
        Class::Alphanumeric => all_alphanumeric(s),
    }
}

pub fn class_test(class: Class, ch: &str) -> (r: bool)
    ensures
        r == in_class(class, ch@),
{
    match class {
        Class::Vertical => is_vertical(ch),
        Class::Horizontal => is_horizontal(ch),
        Class::HorizontalDashed => is_horizontal_dashed(ch),
        Class::VerticalDashed => is_vertical_dashed(ch),
        Class::LowHorizontal => is_low_horizontal(ch),
        Class::LowHorizontalDashed => is_low_horizontal_dashed(ch),
        Class::SlantLeft => is_slant_left(ch),
        Class::SlantRight => is_slant_right(ch),
        Class::LowRound => is_low_round(ch),
        Class::Period => is_period(ch),
        Class::Comma => is_comma(ch),
        Class::HighRound => is_high_round(ch),
        Class::Backtick => is_backtick(ch),
        Class::Round => is_round(ch),
        Class::Intersection => is_intersection(ch),
        Class::Marker => is_marker(ch),
        Class::Asterisk => is_asterisk(ch),
        Class::O => is_o(ch),
        Class::ArrowUp => is_arrow_up(ch),
        Class::ArrowDown => is_arrow_down(ch),
        Class::ArrowLeft => is_arrow_left(ch),
        Class::ArrowRight => is_arrow_right(ch),
        Class::OpenCurve => is_open_curve(ch),
        Class::CloseCurve => is_close_curve(ch),
        Class::Alphanumeric => is_alphanumeric(ch),
    }
}

} // verus!
