//! Verified text primitives: substring matching, whitespace trimming and
//! decimal formatting over `Seq<char>` views.

use vstd::prelude::*;

verus! {

/// ASCII whitespace, as it occurs in extractor output and query strings.
pub open spec fn is_space_char(c: char) -> bool {
    c == ' ' || c == '\t' || c == '\n' || c == '\r' || c == '\u{0b}' || c == '\u{0c}'
}

/// Decimal digit.
pub open spec fn is_digit_char(c: char) -> bool {
    c == '0' || c == '1' || c == '2' || c == '3' || c == '4' || c == '5' || c == '6' || c == '7'
        || c == '8' || c == '9'
}

/// The needle `n` occurs in `h` starting at position `i`.
pub open spec fn spec_match_at(h: Seq<char>, n: Seq<char>, i: int) -> bool {
    &&& 0 <= i
    &&& i + n.len() <= h.len()
    &&& forall|k: int| 0 <= k < n.len() ==> h[i + k] == n[k]
}

/// The needle `n` occurs somewhere in `h`.
pub open spec fn spec_str_contains(h: Seq<char>, n: Seq<char>) -> bool {
    exists|i: int| spec_match_at(h, n, i)
}

/// `h` begins with `n`.
pub open spec fn spec_starts_with(h: Seq<char>, n: Seq<char>) -> bool {
    spec_match_at(h, n, 0)
}

/// `h` ends with `n`.
pub open spec fn spec_ends_with(h: Seq<char>, n: Seq<char>) -> bool {
    n.len() <= h.len() && spec_match_at(h, n, h.len() - n.len())
}

/// Whether `n` occurs in `h` at position `i`, by character comparison.
pub fn str_match_at(h: &str, n: &str, i: usize) -> (b: bool)
    requires
        i + n@.len() <= h@.len(),
    ensures
        b == spec_match_at(h@, n@, i as int),
{
    let hn = h.unicode_len();
    let nn = n.unicode_len();
    let mut j: usize = 0;
    while j < nn
        invariant
            hn == h@.len(),
            nn == n@.len(),
            i + nn <= h@.len(),
            j <= nn,
            forall|k: int| 0 <= k < j ==> h@[i + k] == n@[k],
        decreases nn - j,
    {
        if h.get_char(i + j) != n.get_char(j) {
            assert(!spec_match_at(h@, n@, i as int)) by {
                assert(h@[i + j] != n@[j as int]);
            }
            return false;
        }
        j += 1;
    }
    true
}

/// Substring search; `true` iff `n` occurs anywhere in `h`.
pub fn str_contains(h: &str, n: &str) -> (b: bool)
    ensures
        b == spec_str_contains(h@, n@),
{
    let hn = h.unicode_len();
    let nn = n.unicode_len();
    if nn > hn {
        assert(forall|i: int| !spec_match_at(h@, n@, i));
        return false;
    }
    let mut i: usize = 0;
    while i <= hn - nn
        invariant
            hn == h@.len(),
            nn == n@.len(),
            nn <= hn,
            i <= hn - nn + 1,
            forall|k: int| 0 <= k < i ==> !spec_match_at(h@, n@, k),
        decreases hn - nn - i + 1,
    {
        if str_match_at(h, n, i) {
            return true;
        }
        i += 1;
    }
    assert(forall|k: int| !spec_match_at(h@, n@, k));
    false
}

/// `true` iff `h` begins with `n`.
pub fn str_starts_with(h: &str, n: &str) -> (b: bool)
    ensures
        b == spec_starts_with(h@, n@),
{
    let hn = h.unicode_len();
    let nn = n.unicode_len();
    if nn > hn {
        return false;
    }
    str_match_at(h, n, 0)
}

/// `true` iff `h` ends with `n`.
pub fn str_ends_with(h: &str, n: &str) -> (b: bool)
    ensures
        b == spec_ends_with(h@, n@),
{
    let hn = h.unicode_len();
    let nn = n.unicode_len();
    if nn > hn {
        return false;
    }
    str_match_at(h, n, hn - nn)
}

/// First position at or after `i` that is not whitespace.
pub open spec fn skip_spaces(s: Seq<char>, i: int) -> int
    decreases s.len() - i,
{
    if 0 <= i < s.len() && is_space_char(s[i]) {
        skip_spaces(s, i + 1)
    } else {
        i
    }
}

/// Last position at or before `i` with no whitespace just before it.
pub open spec fn rskip_spaces(s: Seq<char>, i: int) -> int
    decreases i,
{
    if 0 < i <= s.len() && is_space_char(s[i - 1]) {
        rskip_spaces(s, i - 1)
    } else {
        i
    }
}

/// The right scan never moves right.
pub proof fn lemma_rskip_le(s: Seq<char>, i: int)
    requires
        0 <= i,
    ensures
        rskip_spaces(s, i) <= i,
    decreases i,
{
    if 0 < i <= s.len() && is_space_char(s[i - 1]) {
        lemma_rskip_le(s, i - 1);
    }
}

/// `s` with leading and trailing whitespace removed.
pub open spec fn spec_trimmed(s: Seq<char>) -> Seq<char> {
    let a = skip_spaces(s, 0);
    let b = rskip_spaces(s, s.len() as int);
    if a >= b {
        Seq::empty()
    } else {
        s.subrange(a, b)
    }
}

/// Character-wise string equality.
pub fn str_eq(a: &str, b: &str) -> (r: bool)
    ensures
        r == (a@ == b@),
{
    let an = a.unicode_len();
    let bn = b.unicode_len();
    if an != bn {
        return false;
    }
    let eq = str_match_at(a, b, 0);
    proof {
        if spec_match_at(a@, b@, 0) {
            assert(a@ =~= b@);
        }
    }
    eq
}

/// Strips leading and trailing whitespace.
pub fn trim_spaces<'a>(s: &'a str) -> (r: &'a str)
    ensures
        r@ == spec_trimmed(s@),
{
    let len = s.unicode_len();
    let mut a: usize = 0;
    while a < len && is_space(s.get_char(a))
        invariant
            len == s@.len(),
            a <= len,
            skip_spaces(s@, 0) == skip_spaces(s@, a as int),
        decreases len - a,
    {
        assert(skip_spaces(s@, a as int) == skip_spaces(s@, a + 1));
        a += 1;
    }
    assert(skip_spaces(s@, a as int) == a);
    let mut b: usize = len;
    while b > a && is_space(s.get_char(b - 1))
        invariant
            len == s@.len(),
            a <= b <= len,
            skip_spaces(s@, 0) == a,
            a == len || !is_space_char(s@[a as int]),
            a < len ==> b > a,
            rskip_spaces(s@, len as int) == rskip_spaces(s@, b as int),
        decreases b,
    {
        assert(rskip_spaces(s@, b as int) == rskip_spaces(s@, b - 1));
        b -= 1;
    }
    proof {
        if b > a {
            assert(rskip_spaces(s@, b as int) == b);
        } else {
            // the right scan stopped at the left edge: the string was all
            // whitespace, so the left scan ran to the end.
            assert(a == len);
            assert(b == len);
            lemma_rskip_le(s@, b as int);
        }
    }
    let r = s.substring_char(a, b);
    proof {
        if a >= rskip_spaces(s@, len as int) {
            assert(a == b);
            assert(r@ =~= Seq::<char>::empty());
        }
    }
    r
}

/// Executable test for [`is_space_char`].
pub fn is_space(c: char) -> (b: bool)
    ensures
        b == is_space_char(c),
{
    c == ' ' || c == '\t' || c == '\n' || c == '\r' || c == '\u{0b}' || c == '\u{0c}'
}

/// Executable test for [`is_digit_char`].
pub fn is_digit(c: char) -> (b: bool)
    ensures
        b == is_digit_char(c),
{
    c == '0' || c == '1' || c == '2' || c == '3' || c == '4' || c == '5' || c == '6' || c == '7'
        || c == '8' || c == '9'
}

/// The character for a single decimal digit.
pub open spec fn digit_char(d: int) -> char {
    if d == 0 {
        '0'
    } else if d == 1 {
        '1'
    } else if d == 2 {
        '2'
    } else if d == 3 {
        '3'
    } else if d == 4 {
        '4'
    } else if d == 5 {
        '5'
    } else if d == 6 {
        '6'
    } else if d == 7 {
        '7'
    } else if d == 8 {
        '8'
    } else {
        '9'
    }
}

/// Numeric value of a decimal digit character, 10 for non-digits.
pub open spec fn digit_value(c: char) -> int {
    if c == '0' {
        0
    } else if c == '1' {
        1
    } else if c == '2' {
        2
    } else if c == '3' {
        3
    } else if c == '4' {
        4
    } else if c == '5' {
        5
    } else if c == '6' {
        6
    } else if c == '7' {
        7
    } else if c == '8' {
        8
    } else if c == '9' {
        9
    } else {
        10
    }
}

/// Executable digit value; 10 for non-digits.
pub fn char_digit_value(c: char) -> (d: u32)
    ensures
        d == digit_value(c),
{
    if c == '0' {
        0
    } else if c == '1' {
        1
    } else if c == '2' {
        2
    } else if c == '3' {
        3
    } else if c == '4' {
        4
    } else if c == '5' {
        5
    } else if c == '6' {
        6
    } else if c == '7' {
        7
    } else if c == '8' {
        8
    } else if c == '9' {
        9
    } else {
        10
    }
}

/// Decimal representation of `n`, most significant digit first.
pub open spec fn spec_dec_digits(n: nat) -> Seq<char>
    decreases n,
{
    if n < 10 {
        seq![digit_char(n as int)]
    } else {
        spec_dec_digits(n / 10).push(digit_char((n % 10) as int))
    }
}

/// One-character string for a decimal digit.
fn digit_str(d: u64) -> (r: &'static str)
    requires
        d < 10,
    ensures
        r@ == seq![digit_char(d as int)],
{
    if d == 0 {
        proof {
            reveal_strlit("0");
        }
        assert("0"@ =~= seq![digit_char(0)]);
        "0"
    } else if d == 1 {
        proof {
            reveal_strlit("1");
        }
        assert("1"@ =~= seq![digit_char(1)]);
        "1"
    } else if d == 2 {
        proof {
            reveal_strlit("2");
        }
        assert("2"@ =~= seq![digit_char(2)]);
        "2"
    } else if d == 3 {
        proof {
            reveal_strlit("3");
        }
        assert("3"@ =~= seq![digit_char(3)]);
        "3"
    } else if d == 4 {
        proof {
            reveal_strlit("4");
        }
        assert("4"@ =~= seq![digit_char(4)]);
        "4"
    } else if d == 5 {
        proof {
            reveal_strlit("5");
        }
        assert("5"@ =~= seq![digit_char(5)]);
        "5"
    } else if d == 6 {
        proof {
            reveal_strlit("6");
        }
        assert("6"@ =~= seq![digit_char(6)]);
        "6"
    } else if d == 7 {
        proof {
            reveal_strlit("7");
        }
        assert("7"@ =~= seq![digit_char(7)]);
        "7"
    } else if d == 8 {
        proof {
            reveal_strlit("8");
        }
        assert("8"@ =~= seq![digit_char(8)]);
        "8"
    } else {
        proof {
            reveal_strlit("9");
        }
        assert("9"@ =~= seq![digit_char(9)]);
        "9"
    }
}

/// Formats `n` in decimal.
pub fn u64_to_dec(n: u64) -> (r: String)
    ensures
        r@ == spec_dec_digits(n as nat),
{
    let mut digits: Vec<u64> = Vec::new();
    let ghost mut acc: Seq<char> = Seq::empty();
    let mut m = n;
    loop
        invariant_except_break
            spec_dec_digits(n as nat) == spec_dec_digits(m as nat).add(acc),
        invariant
            digits@.len() == acc.len(),
            forall|j: int|
                0 <= j < acc.len() ==> acc[j] == digit_char(
                    digits@[digits@.len() - 1 - j] as int,
                ),
            forall|j: int| 0 <= j < digits@.len() ==> digits@[j] < 10,
        ensures
            spec_dec_digits(n as nat) == acc,
            digits@.len() == acc.len(),
            forall|j: int|
                0 <= j < acc.len() ==> acc[j] == digit_char(
                    digits@[digits@.len() - 1 - j] as int,
                ),
            forall|j: int| 0 <= j < digits@.len() ==> digits@[j] < 10,
        decreases m,
    {
        let d = m % 10;
        digits.push(d);
        proof {
            let old_acc = acc;
            acc = seq![digit_char(d as int)].add(acc);
            assert(forall|j: int|
                1 <= j < acc.len() ==> acc[j] == old_acc[j - 1]);
            if m >= 10 {
                assert(spec_dec_digits(m as nat) == spec_dec_digits((m / 10) as nat).push(
                    digit_char((m % 10) as int),
                ));
                assert(spec_dec_digits((m / 10) as nat).push(digit_char(d as int)).add(old_acc)
                    =~= spec_dec_digits((m / 10) as nat).add(acc));
            } else {
                assert(spec_dec_digits(m as nat) =~= seq![digit_char(d as int)]);
                assert(spec_dec_digits(m as nat).add(old_acc) =~= acc);
            }
        }
        m = m / 10;
        if m == 0 {
            break;
        }
    }
    let mut out = String::new();
    let count = digits.len();
    let mut i: usize = 0;
    while i < count
        invariant
            count == digits@.len(),
            i <= count,
            digits@.len() == acc.len(),
            forall|j: int|
                0 <= j < acc.len() ==> acc[j] == digit_char(
                    digits@[digits@.len() - 1 - j] as int,
                ),
            forall|j: int| 0 <= j < digits@.len() ==> digits@[j] < 10,
            out@ == acc.subrange(0, i as int),
        decreases count - i,
    {
        let d = digits[count - 1 - i];
        out.append(digit_str(d));
        proof {
            assert(out@ =~= acc.subrange(0, i + 1 as int));
        }
        i += 1;
    }
    proof {
        assert(out@ =~= acc);
    }
    out
}

} // verus!
