//! Parsing of the extractor's progress stream: lines of the shape
//! `[download]  25.5% of 10.00MiB at 1.23MiB/s ETA 00:42` yield a
//! percentage (in tenths), a speed and an ETA; merger and cleanup lines
//! mark the processing stage.

use vstd::prelude::*;

use crate::text::digit_value;
use crate::text::is_digit;
use crate::text::is_digit_char;
use crate::text::is_space;
use crate::text::is_space_char;
use crate::text::skip_spaces;
use crate::text::spec_match_at;
use crate::text::spec_str_contains;
use crate::text::str_contains;
use crate::text::str_match_at;

verus! {

/// A character of a size token: digits and dots.
pub open spec fn is_size_char(c: char) -> bool {
    is_digit_char(c) || c == '.'
}

/// A unit character: letters, digits, underscore.
pub open spec fn is_word_char(c: char) -> bool {
    (97 <= c as u32 && c as u32 <= 122) || (65 <= c as u32 && c as u32 <= 90) || is_digit_char(c)
        || c == '_'
}

/// First position at or after `i` that is not a digit.
pub open spec fn skip_digits(s: Seq<char>, i: int) -> int
    decreases s.len() - i,
{
    if 0 <= i < s.len() && is_digit_char(s[i]) {
        skip_digits(s, i + 1)
    } else {
        i
    }
}

/// First position at or after `i` that is neither digit nor dot.
pub open spec fn skip_size(s: Seq<char>, i: int) -> int
    decreases s.len() - i,
{
    if 0 <= i < s.len() && is_size_char(s[i]) {
        skip_size(s, i + 1)
    } else {
        i
    }
}

/// First position at or after `i` that is not a unit character.
pub open spec fn skip_word(s: Seq<char>, i: int) -> int
    decreases s.len() - i,
{
    if 0 <= i < s.len() && is_word_char(s[i]) {
        skip_word(s, i + 1)
    } else {
        i
    }
}

/// First position at or after `i` that is whitespace (or the end).
pub open spec fn skip_nonspace(s: Seq<char>, i: int) -> int
    decreases s.len() - i,
{
    if 0 <= i < s.len() && !is_space_char(s[i]) {
        skip_nonspace(s, i + 1)
    } else {
        i
    }
}

/// Executable test for [`is_size_char`].
fn is_size(c: char) -> (b: bool)
    ensures
        b == is_size_char(c),
{
    is_digit(c) || c == '.'
}

/// Executable test for [`is_word_char`].
fn is_word(c: char) -> (b: bool)
    ensures
        b == is_word_char(c),
{
    let u = c as u32;
    (97 <= u && u <= 122) || (65 <= u && u <= 90) || is_digit(c) || c == '_'
}

fn scan_spaces(s: &str, from: usize) -> (r: usize)
    requires
        from <= s@.len(),
    ensures
        r == skip_spaces(s@, from as int),
        from <= r <= s@.len(),
{
    let len = s.unicode_len();
    let mut j = from;
    while j < len && is_space(s.get_char(j))
        invariant
            from <= j <= len,
            len == s@.len(),
            skip_spaces(s@, from as int) == skip_spaces(s@, j as int),
        decreases len - j,
    {
        assert(skip_spaces(s@, j as int) == skip_spaces(s@, j + 1));
        j += 1;
    }
    assert(skip_spaces(s@, j as int) == j);
    j
}

fn scan_digits(s: &str, from: usize) -> (r: usize)
    requires
        from <= s@.len(),
    ensures
        r == skip_digits(s@, from as int),
        from <= r <= s@.len(),
{
    let len = s.unicode_len();
    let mut j = from;
    while j < len && is_digit(s.get_char(j))
        invariant
            from <= j <= len,
            len == s@.len(),
            skip_digits(s@, from as int) == skip_digits(s@, j as int),
        decreases len - j,
    {
        assert(skip_digits(s@, j as int) == skip_digits(s@, j + 1));
        j += 1;
    }
    assert(skip_digits(s@, j as int) == j);
    j
}

fn scan_size(s: &str, from: usize) -> (r: usize)
    requires
        from <= s@.len(),
    ensures
        r == skip_size(s@, from as int),
        from <= r <= s@.len(),
{
    let len = s.unicode_len();
    let mut j = from;
    while j < len && is_size(s.get_char(j))
        invariant
            from <= j <= len,
            len == s@.len(),
            skip_size(s@, from as int) == skip_size(s@, j as int),
        decreases len - j,
    {
        assert(skip_size(s@, j as int) == skip_size(s@, j + 1));
        j += 1;
    }
    assert(skip_size(s@, j as int) == j);
    j
}

fn scan_word(s: &str, from: usize) -> (r: usize)
    requires
        from <= s@.len(),
    ensures
        r == skip_word(s@, from as int),
        from <= r <= s@.len(),
{
    let len = s.unicode_len();
    let mut j = from;
    while j < len && is_word(s.get_char(j))
        invariant
            from <= j <= len,
            len == s@.len(),
            skip_word(s@, from as int) == skip_word(s@, j as int),
        decreases len - j,
    {
        assert(skip_word(s@, j as int) == skip_word(s@, j + 1));
        j += 1;
    }
    assert(skip_word(s@, j as int) == j);
    j
}

fn scan_nonspace(s: &str, from: usize) -> (r: usize)
    requires
        from <= s@.len(),
    ensures
        r == skip_nonspace(s@, from as int),
        from <= r <= s@.len(),
{
    let len = s.unicode_len();
    let mut j = from;
    while j < len && !is_space(s.get_char(j))
        invariant
            from <= j <= len,
            len == s@.len(),
            skip_nonspace(s@, from as int) == skip_nonspace(s@, j as int),
        decreases len - j,
    {
        assert(skip_nonspace(s@, j as int) == skip_nonspace(s@, j + 1));
        j += 1;
    }
    assert(skip_nonspace(s@, j as int) == j);
    j
}

/// Numeric value of a run of decimal digits.
pub open spec fn spec_digits_value(s: Seq<char>) -> int
    decreases s.len(),
{
    if s.len() == 0 {
        0
    } else {
        spec_digits_value(s.drop_last()) * 10 + digit_value(s.last())
    }
}

/// Every character skipped by [`skip_digits`] is a digit.
proof fn lemma_skip_digits_chars(s: Seq<char>, i: int)
    requires
        0 <= i,
    ensures
        forall|k: int| i <= k < skip_digits(s, i) ==> is_digit_char(#[trigger] s[k]),
    decreases s.len() - i,
{
    if 0 <= i < s.len() && is_digit_char(s[i]) {
        lemma_skip_digits_chars(s, i + 1);
    }
}

proof fn lemma_digits_value_nonneg(s: Seq<char>)
    ensures
        spec_digits_value(s) >= 0,
    decreases s.len(),
{
    if s.len() > 0 {
        lemma_digits_value_nonneg(s.drop_last());
    }
}

/// The advertised percentage in tenths, clamped to the 0–100 percent
/// range the protocol promises.
pub open spec fn spec_tenths(whole: int, frac_digit: int) -> int {
    if whole * 10 + frac_digit > 1000 {
        1000
    } else {
        whole * 10 + frac_digit
    }
}

/// The parse of one `[download]` progress line, anchored at its start:
/// percent (tenths), speed token and ETA token, or `None` when the line
/// has another shape.
pub open spec fn spec_parse_download(s: Seq<char>) -> Option<(int, Seq<char>, Seq<char>)> {
    if !spec_match_at(s, "[download]"@, 0) {
        None
    } else {
        let a = skip_spaces(s, 10);
        if a <= 10 {
            None
        } else {
            let d1 = skip_digits(s, a);
            if d1 <= a {
                None
            } else {
                let d2 = if d1 < s.len() && s[d1] == '.' {
                    skip_digits(s, d1 + 1)
                } else {
                    d1
                };
                if !(d2 < s.len() && s[d2] == '%') {
                    None
                } else {
                    let b = skip_spaces(s, d2 + 1);
                    if b <= d2 + 1 || !spec_match_at(s, "of"@, b) {
                        None
                    } else {
                        let c = skip_spaces(s, b + 2);
                        if c <= b + 2 {
                            None
                        } else {
                            let z1 = skip_size(s, c);
                            if z1 <= c {
                                None
                            } else {
                                let z2 = skip_word(s, z1);
                                let e = skip_spaces(s, z2);
                                if e <= z2 || !spec_match_at(s, "at"@, e) {
                                    None
                                } else {
                                    let f = skip_spaces(s, e + 2);
                                    if f <= e + 2 {
                                        None
                                    } else {
                                        let p1 = skip_size(s, f);
                                        if p1 <= f {
                                            None
                                        } else {
                                            let p2 = skip_word(s, p1);
                                            if !(p2 + 1 < s.len() && s[p2] == '/' && s[p2 + 1]
                                                == 's') {
                                                None
                                            } else {
                                                let g = skip_spaces(s, p2 + 2);
                                                if g <= p2 + 2 || !spec_match_at(s, "ETA"@, g) {
                                                    None
                                                } else {
                                                    let h = skip_spaces(s, g + 3);
                                                    if h <= g + 3 {
                                                        None
                                                    } else {
                                                        let k = skip_nonspace(s, h);
                                                        if k <= h {
                                                            None
                                                        } else {
                                                            let frac = if d2 > d1 && d2 > d1 + 1 {
                                                                digit_value(s[d1 + 1])
                                                            } else {
                                                                0
                                                            };
                                                            Some(
                                                                (
                                                                    spec_tenths(
                                                                        spec_digits_value(
                                                                            s.subrange(a, d1),
                                                                        ),
                                                                        frac,
                                                                    ),
                                                                    s.subrange(f, p2 + 2),
                                                                    s.subrange(h, k),
                                                                ),
                                                            )
                                                        }
                                                    }
                                                }
                                            }
                                        }
                                    }
                                }
                            }
                        }
                    }
                }
            }
        }
    }
}

/// The pieces parsed from one progress line.
pub struct ParsedProgress {
    pub percent_tenths: u32,
    pub speed: String,
    pub eta: String,
}

/// Digit-run value clamped to 101, enough to decide the percent clamp.
fn digits_value_capped(s: &str, from: usize, to: usize) -> (r: u32)
    requires
        from <= to <= s@.len(),
        forall|k: int| from <= k < to ==> is_digit_char(#[trigger] s@[k]),
    ensures
        r == if spec_digits_value(s@.subrange(from as int, to as int)) > 100 {
            101int
        } else {
            spec_digits_value(s@.subrange(from as int, to as int))
        },
        r <= 101,
{
    let mut acc: u32 = 0;
    let mut j = from;
    proof {
        assert(s@.subrange(from as int, from as int) =~= Seq::<char>::empty());
    }
    while j < to
        invariant
            from <= j <= to <= s@.len(),
            forall|k: int| from <= k < to ==> is_digit_char(#[trigger] s@[k]),
            acc == if spec_digits_value(s@.subrange(from as int, j as int)) > 100 {
                101int
            } else {
                spec_digits_value(s@.subrange(from as int, j as int))
            },
            acc <= 101,
        decreases to - j,
    {
        let ghost pre = s@.subrange(from as int, j as int);
        let d = crate::text::char_digit_value(s.get_char(j));
        assert(d <= 9) by {
            assert(is_digit_char(s@[j as int]));
        }
        proof {
            assert(s@.subrange(from as int, j + 1).drop_last() =~= pre);
            assert(s@.subrange(from as int, j + 1).last() == s@[j as int]);
        }
        let nv = acc * 10 + d;
        if nv > 100 {
            acc = 101;
        } else {
            acc = nv;
        }
        j += 1;
    }
    acc
}

/// Parses one extractor progress line; `Some` exactly on lines of the
/// `[download] <percent>% of <size> at <speed>/s ETA <eta>` shape.
pub fn parse_download_line(line: &str) -> (r: Option<ParsedProgress>)
    ensures
        match (r, spec_parse_download(line@)) {
            (Some(p), Some(t)) => {
                &&& p.percent_tenths as int == t.0
                &&& p.speed@ == t.1
                &&& p.eta@ == t.2
            },
            (None, None) => true,
            _ => false,
        },
{
    proof {
        reveal_strlit("[download]");
        reveal_strlit("of");
        reveal_strlit("at");
        reveal_strlit("ETA");
    }
    let len = line.unicode_len();
    if len < 10 || !str_match_at(line, "[download]", 0) {
        return None;
    }
    let a = scan_spaces(line, 10);
    if a <= 10 {
        return None;
    }
    let d1 = scan_digits(line, a);
    if d1 <= a {
        return None;
    }
    let d2 = if d1 < len && line.get_char(d1) == '.' {
        scan_digits(line, d1 + 1)
    } else {
        d1
    };
    if !(d2 < len && line.get_char(d2) == '%') {
        return None;
    }
    let b = scan_spaces(line, d2 + 1);
    if b <= d2 + 1 || len - b < 2 || !str_match_at(line, "of", b) {
        return None;
    }
    let c = scan_spaces(line, b + 2);
    if c <= b + 2 {
        return None;
    }
    let z1 = scan_size(line, c);
    if z1 <= c {
        return None;
    }
    let z2 = scan_word(line, z1);
    let e = scan_spaces(line, z2);
    if e <= z2 || len - e < 2 || !str_match_at(line, "at", e) {
        return None;
    }
    let f = scan_spaces(line, e + 2);
    if f <= e + 2 {
        return None;
    }
    let p1 = scan_size(line, f);
    if p1 <= f {
        return None;
    }
    let p2 = scan_word(line, p1);
    if p2 >= len || len - p2 < 2 || line.get_char(p2) != '/' || line.get_char(p2 + 1) != 's' {
        return None;
    }
    let g = scan_spaces(line, p2 + 2);
    if g <= p2 + 2 || len - g < 3 || !str_match_at(line, "ETA", g) {
        return None;
    }
    let h = scan_spaces(line, g + 3);
    if h <= g + 3 {
        return None;
    }
    let k = scan_nonspace(line, h);
    if k <= h {
        return None;
    }
    proof {
        lemma_skip_digits_chars(line@, a as int);
        if d1 < len && line@[d1 as int] == '.' {
            lemma_skip_digits_chars(line@, d1 + 1);
        }
        lemma_digits_value_nonneg(line@.subrange(a as int, d1 as int));
    }
    let whole = digits_value_capped(line, a, d1);
    let frac: u32 = if d2 > d1 && d2 > d1 + 1 {
        crate::text::char_digit_value(line.get_char(d1 + 1))
    } else {
        0
    };
    assert(frac <= 9) by {
        if d2 > d1 && d2 > d1 + 1 {
            assert(is_digit_char(line@[d1 + 1]));
        }
    }
    let tenths: u32 = if whole >= 100 {
        1000
    } else {
        whole * 10 + frac
    };
    let speed = String::from_str(line.substring_char(f, p2 + 2));
    let eta = String::from_str(line.substring_char(h, k));
    Some(ParsedProgress { percent_tenths: tenths, speed, eta })
}

/// `true` on extractor lines that mark post-download processing: merges,
/// audio extraction and temporary-file cleanup.
pub fn is_processing_line(line: &str) -> (r: bool)
    ensures
        r == (spec_str_contains(line@, "[Merger]"@) || spec_str_contains(
            line@,
            "[ExtractAudio]"@,
        ) || spec_str_contains(line@, "Deleting"@)),
{
    str_contains(line, "[Merger]") || str_contains(line, "[ExtractAudio]") || str_contains(
        line,
        "Deleting",
    )
}

} // verus!
