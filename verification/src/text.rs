//! Character-level helpers shared by the note-name parsers and the locale
//! detection: Unicode whitespace trimming, substring search and decimal
//! integer parsing.
use vstd::prelude::*;
use vstd::string::*;

verus! {

/// `s` contains "zh" somewhere.
pub open spec fn has_zh(s: Seq<char>) -> bool {
    exists|i: int| 0 <= i && i + 1 < s.len() && s[i] == 'z' && #[trigger] s[i + 1] == 'h'
}

/// Whether `s` contains the substring "zh".
pub fn contains_zh(s: &str) -> (r: bool)
    ensures
        r == has_zh(s@),
{
    let n = s.unicode_len();
    let mut i: usize = 0;
    while i < n && i + 1 < n
        invariant
            n == s@.len(),
            i <= n,
            forall|j: int| 0 <= j < i && j + 1 < s@.len() ==> !(s@[j] == 'z' && #[trigger] s@[j + 1] == 'h'),
        decreases n - i,
    {
        if s.get_char(i) == 'z' && s.get_char(i + 1) == 'h' {
            return true;
        }
        i = i + 1;
    }
    false
}


/// Unicode `White_Space` characters (what `char::is_whitespace` accepts).
pub open spec fn is_whitespace(c: char) -> bool {
    let u = c as u32;
    ||| 0x9 <= u <= 0xD
    ||| u == 0x20
    ||| u == 0x85
    ||| u == 0xA0
    ||| u == 0x1680
    ||| 0x2000 <= u <= 0x200A
    ||| u == 0x2028
    ||| u == 0x2029
    ||| u == 0x202F
    ||| u == 0x205F
    ||| u == 0x3000
}

fn is_whitespace_char(c: char) -> (r: bool)
    ensures
        r == is_whitespace(c),
{
    let u = c as u32;
    (0x9 <= u && u <= 0xD) || u == 0x20 || u == 0x85 || u == 0xA0 || u == 0x1680 || (0x2000 <= u && u <= 0x200A)
        || u == 0x2028 || u == 0x2029 || u == 0x202F || u == 0x205F || u == 0x3000
}

/// `s` without its leading whitespace.
pub open spec fn trim_start(s: Seq<char>) -> Seq<char>
    decreases s.len(),
{
    if s.len() > 0 && is_whitespace(s[0]) {
        trim_start(s.drop_first())
    } else {
        s
    }
}

/// `s` without its trailing whitespace.
pub open spec fn trim_end(s: Seq<char>) -> Seq<char>
    decreases s.len(),
{
    if s.len() > 0 && is_whitespace(s.last()) {
        trim_end(s.drop_last())
    } else {
        s
    }
}

/// `s` without leading and trailing whitespace (what `str::trim` gives).
pub open spec fn trim(s: Seq<char>) -> Seq<char> {
    trim_end(trim_start(s))
}

/// Character bounds `(start, end)` of the trimmed string: `trim(s)` is the
/// characters of `s` from `start` up to `end`.
pub fn trim_bounds(s: &str) -> (r: (usize, usize))
    ensures
        r.0 <= r.1 <= s@.len(),
        trim(s@) == s@.subrange(r.0 as int, r.1 as int),
{
    let n = s.unicode_len();
    let mut a: usize = 0;
    assert(s@.subrange(0, n as int) =~= s@);
    while a < n && is_whitespace_char(s.get_char(a))
        invariant
            n == s@.len(),
            a <= n,
            trim_start(s@) == trim_start(s@.subrange(a as int, n as int)),
        decreases n - a,
    {
        assert(s@.subrange(a as int, n as int).drop_first() =~= s@.subrange(a + 1, n as int));
        a = a + 1;
    }
    assert(trim_start(s@) == s@.subrange(a as int, n as int));
    let mut b: usize = n;
    while b > a && is_whitespace_char(s.get_char(b - 1))
        invariant
            n == s@.len(),
            a <= b <= n,
            trim(s@) == trim_end(s@.subrange(a as int, b as int)),
        decreases b - a,
    {
        assert(s@.subrange(a as int, b as int).drop_last() =~= s@.subrange(a as int, b - 1));
        b = b - 1;
    }
    (a, b)
}

pub open spec fn is_ascii_char(c: char) -> bool {
    (c as u32) < 0x80
}

pub open spec fn is_digit(c: char) -> bool {
    '0' <= c && c <= '9'
}

pub open spec fn digit_value(c: char) -> int {
    (c as u32) - ('0' as u32)
}

pub open spec fn all_digits(d: Seq<char>) -> bool {
    forall|i: int| 0 <= i < d.len() ==> #[trigger] is_digit(d[i])
}

/// Value of a string of decimal digits.
pub open spec fn decimal_value(d: Seq<char>) -> int
    decreases d.len(),
{
    if d.len() == 0 {
        0
    } else {
        decimal_value(d.drop_last()) * 10 + digit_value(d.last())
    }
}

/// What `str::parse::<i32>` gives: an optional `+` or `-` sign followed by at
/// least one decimal digit, whose value fits in an `i32`.
pub open spec fn spec_parse_i32(s: Seq<char>) -> Option<i32> {
    let signed = s.len() > 0 && (s[0] == '-' || s[0] == '+');
    let digits = if signed { s.drop_first() } else { s };
    if digits.len() > 0 && all_digits(digits) {
        let v = if s[0] == '-' { -decimal_value(digits) } else { decimal_value(digits) };
        if i32::MIN <= v <= i32::MAX { Some(v as i32) } else { None }
    } else {
        None
    }
}

proof fn lemma_decimal_value_nonneg(d: Seq<char>)
    requires
        all_digits(d),
    ensures
        decimal_value(d) >= 0,
    decreases d.len(),
{
    if d.len() > 0 {
        assert(is_digit(d[d.len() - 1]));
        lemma_decimal_value_nonneg(d.drop_last());
    }
}

/// A digit string is worth at least as much as any of its prefixes.
proof fn lemma_decimal_value_prefix(d: Seq<char>, k: int)
    requires
        all_digits(d),
        0 <= k <= d.len(),
    ensures
        decimal_value(d.take(k)) <= decimal_value(d),
    decreases d.len(),
{
    if k < d.len() {
        assert(is_digit(d[d.len() - 1]));
        lemma_decimal_value_nonneg(d.drop_last());
        assert(d.drop_last().take(k) =~= d.take(k));
        lemma_decimal_value_prefix(d.drop_last(), k);
    } else {
        assert(d.take(k) =~= d);
    }
}

/// Parses the characters of `s` from `from` up to `to` as an `i32`, the way
/// `str::parse::<i32>` does.
pub fn parse_i32_chars(s: &str, from: usize, to: usize) -> (r: Option<i32>)
    requires
        from <= to <= s@.len(),
    ensures
        r == spec_parse_i32(s@.subrange(from as int, to as int)),
{
    let ghost t = s@.subrange(from as int, to as int);
    if from == to {
        return None;
    }
    let first = s.get_char(from);
    let neg = first == '-';
    let start: usize = if first == '-' || first == '+' { from + 1 } else { from };
    let ghost digits = s@.subrange(start as int, to as int);
    assert(digits =~= if t.len() > 0 && (t[0] == '-' || t[0] == '+') { t.drop_first() } else { t });
    if start == to {
        return None;
    }
    let mut acc: i64 = 0;
    let mut i: usize = start;
    while i < to
        invariant
            from <= start <= i <= to <= s@.len(),
            digits == s@.subrange(start as int, to as int),
            t == s@.subrange(from as int, to as int),
            digits.len() > 0,
            digits == (if t.len() > 0 && (t[0] == '-' || t[0] == '+') { t.drop_first() } else { t }),
            acc == decimal_value(s@.subrange(start as int, i as int)),
            0 <= acc <= 0x8000_0000,
            all_digits(s@.subrange(start as int, i as int)),
        decreases to - i,
    {
        let c = s.get_char(i);
        let ghost prefix = s@.subrange(start as int, i + 1);
        assert(prefix.drop_last() =~= s@.subrange(start as int, i as int));
        if !('0' <= c && c <= '9') {
            assert(digits[i - start] == c);
            assert(!is_digit(digits[i - start]));
            return None;
        }
        let d = (c as u32 - '0' as u32) as i64;
        assert(prefix.last() == c);
        acc = acc * 10 + d;
        assert(acc == decimal_value(prefix));
        i = i + 1;
        assert(all_digits(s@.subrange(start as int, i as int))) by {
            assert forall|k: int| 0 <= k < prefix.len() implies #[trigger] is_digit(prefix[k]) by {
                if k < prefix.len() - 1 {
                    assert(prefix[k] == s@.subrange(start as int, i - 1)[k]);
                }
            }
        }
        if acc > 0x8000_0000 {
            proof {
                if all_digits(digits) {
                    assert(digits.take(i - start) =~= prefix);
                    lemma_decimal_value_prefix(digits, i - start);
                    assert(decimal_value(digits) > 0x8000_0000);
                }
            }
            return None;
        }
    }
    assert(s@.subrange(start as int, to as int) =~= digits);
    let v: i64 = if neg { -acc } else { acc };
    if v < -0x8000_0000 || v > 0x7fff_ffff {
        None
    } else {
        Some(v as i32)
    }
}

} // verus!
