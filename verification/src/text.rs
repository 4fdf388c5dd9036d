//! Text helpers shared by the renderers and parsers: decimal numbers,
//! column truncation and padding.

use vstd::prelude::*;

verus! {

// ---------------------------------------------------------------------------
// Decimal digits
// ---------------------------------------------------------------------------

/// The ASCII digit for `d` (`d < 10`).
pub open spec fn digit_char(d: nat) -> char {
    (d + 48) as char
}

pub open spec fn is_digit(c: char) -> bool {
    '0' <= c && c <= '9'
}

pub open spec fn digit_value(c: char) -> nat {
    ((c as int) - 48) as nat
}

/// Every character of `d` is an ASCII digit.
pub open spec fn all_digits(d: Seq<char>) -> bool {
    forall|i: int| 0 <= i < d.len() ==> #[trigger] is_digit(d[i])
}

/// The number that the digit string `d` denotes (0 for the empty string).
pub open spec fn digits_value(d: Seq<char>) -> nat
    decreases d.len(),
{
    if d.len() == 0 {
        0
    } else {
        digits_value(d.drop_last()) * 10 + digit_value(d.last())
    }
}

/// Shortest decimal rendering of a natural number.
pub open spec fn decimal(n: nat) -> Seq<char>
    decreases n,
{
    if n < 10 {
        seq![digit_char(n)]
    } else {
        decimal(n / 10).push(digit_char(n % 10))
    }
}

/// Decimal rendering of an integer, with a leading `-` when negative.
pub open spec fn decimal_int(n: int) -> Seq<char> {
    if n < 0 {
        seq!['-'] + decimal((-n) as nat)
    } else {
        decimal(n as nat)
    }
}

/// What `str::parse::<u32>` accepts: an optional `+`, then one or more ASCII
/// digits whose value fits in a `u32`.
pub open spec fn parse_u32_spec(s: Seq<char>) -> Option<u32> {
    let d = if s.len() > 0 && s[0] == '+' { s.skip(1) } else { s };
    if d.len() > 0 && all_digits(d) && digits_value(d) <= u32::MAX {
        Some(digits_value(d) as u32)
    } else {
        None
    }
}

/// What `str::parse::<i64>` accepts: an optional `+` or `-`, then one or more
/// ASCII digits whose signed value fits in an `i64`.
pub open spec fn parse_i64_spec(s: Seq<char>) -> Option<i64> {
    let neg = s.len() > 0 && s[0] == '-';
    let d = if s.len() > 0 && (s[0] == '+' || s[0] == '-') { s.skip(1) } else { s };
    if d.len() == 0 || !all_digits(d) {
        None
    } else if neg {
        if digits_value(d) <= 0x8000_0000_0000_0000 {
            Some((-(digits_value(d) as int)) as i64)
        } else {
            None
        }
    } else if digits_value(d) <= i64::MAX {
        Some(digits_value(d) as i64)
    } else {
        None
    }
}

pub proof fn lemma_digit_char(d: nat)
    requires
        d < 10,
    ensures
        is_digit(digit_char(d)),
        digit_value(digit_char(d)) == d,
        digit_char(d) != '-',
        digit_char(d) != '+',
{
}

pub proof fn lemma_decimal_shape(n: nat)
    ensures
        decimal(n).len() > 0,
        all_digits(decimal(n)),
        digits_value(decimal(n)) == n,
        is_digit(decimal(n)[0]),
    decreases n,
{
    if n < 10 {
        lemma_digit_char(n);
        let s = decimal(n);
        assert(s.drop_last() =~= Seq::<char>::empty());
        assert(digits_value(s.drop_last()) == 0);
        assert(s.last() == digit_char(n));
    } else {
        lemma_decimal_shape(n / 10);
        lemma_digit_char(n % 10);
        let s = decimal(n);
        assert(s.drop_last() =~= decimal(n / 10));
        assert(s.last() == digit_char(n % 10));
        assert(digits_value(s) == digits_value(decimal(n / 10)) * 10 + digit_value(
            digit_char(n % 10),
        ));
        assert((n / 10) * 10 + n % 10 == n);
        assert forall|i: int| 0 <= i < s.len() implies #[trigger] is_digit(s[i]) by {
            if i < s.len() - 1 {
                assert(s[i] == decimal(n / 10)[i]);
            }
        }
    }
}

/// A rendered integer reads back as the same integer.
pub proof fn lemma_parse_decimal_int(n: i64)
    ensures
        parse_i64_spec(decimal_int(n as int)) == Some(n),
{
    if n < 0 {
        let m = (-(n as int)) as nat;
        lemma_decimal_shape(m);
        let s = decimal_int(n as int);
        assert(s[0] == '-');
        assert(s.skip(1) =~= decimal(m));
    } else {
        lemma_decimal_shape(n as nat);
        lemma_digit_char(0);
    }
}

/// Every digit string's value grows with every further digit.
pub proof fn lemma_digits_value_prefix(d: Seq<char>, k: int)
    requires
        0 <= k <= d.len(),
    ensures
        digits_value(d.take(k)) <= digits_value(d),
    decreases d.len() - k,
{
    if k < d.len() {
        lemma_digits_value_prefix(d, k + 1);
        assert(d.take(k + 1).drop_last() =~= d.take(k));
    } else {
        assert(d.take(k) =~= d);
    }
}

// ---------------------------------------------------------------------------
// Executable helpers
// ---------------------------------------------------------------------------

/// Appends one character to a string (`String::push`).
#[verifier::external_body]
pub(crate) fn push_char(s: &mut String, c: char)
    ensures
        final(s)@ == old(s)@.push(c),
{
    s.push(c);
}

/// What `<str as Debug>::fmt` writes for a text: the text in double quotes,
/// with quotes, backslashes, control and non-printable characters escaped.
pub uninterp spec fn debug_quoted(s: Seq<char>) -> Seq<char>;

/// `format!("{:?}", s)` for a text. The contract names the result after the
/// text and claims nothing else of it.
#[verifier::external_body]
pub(crate) fn debug_str(s: &str) -> (r: String)
    ensures
        r@ == debug_quoted(s@),
{
    format!("{:?}", s)
}

/// The characters of `s`, in order.
pub fn chars_of(s: &str) -> (v: Vec<char>)
    ensures
        v@ == s@,
{
    let n = s.unicode_len();
    let mut v: Vec<char> = Vec::new();
    let mut i: usize = 0;
    while i < n
        invariant
            n == s@.len(),
            i <= n,
            v@ == s@.take(i as int),
        decreases n - i,
    {
        let c = s.get_char(i);
        v.push(c);
        assert(s@.take(i + 1) =~= s@.take(i as int).push(c));
        i = i + 1;
    }
    assert(s@.take(n as int) =~= s@);
    v
}

fn digit_of(d: u64) -> (c: char)
    requires
        d < 10,
    ensures
        c == digit_char(d as nat),
{
    match d {
        0 => '0',
        1 => '1',
        2 => '2',
        3 => '3',
        4 => '4',
        5 => '5',
        6 => '6',
        7 => '7',
        8 => '8',
        _ => '9',
    }
}

/// Decimal rendering of a `u64` (what `u64::to_string` gives).
pub fn fmt_u64(n: u64) -> (s: String)
    ensures
        s@ == decimal(n as nat),
    decreases n,
{
    if n < 10 {
        let mut s = String::new();
        push_char(&mut s, digit_of(n));
        assert(s@ =~= decimal(n as nat));
        s
    } else {
        let mut s = fmt_u64(n / 10);
        push_char(&mut s, digit_of(n % 10));
        s
    }
}

/// Decimal rendering of an `i64` (what `i64::to_string` gives).
pub fn fmt_i64(n: i64) -> (s: String)
    ensures
        s@ == decimal_int(n as int),
{
    if n < 0 {
        let m: u64 = (-(n as i128)) as u64;
        let digits = fmt_u64(m);
        let mut s = String::new();
        push_char(&mut s, '-');
        let s = s.concat(digits.as_str());
        assert(s@ =~= decimal_int(n as int));
        s
    } else {
        fmt_u64(n as u64)
    }
}

/// Decimal rendering of a `u32`.
pub fn fmt_u32(n: u32) -> (s: String)
    ensures
        s@ == decimal(n as nat),
{
    fmt_u64(n as u64)
}

/// Decimal rendering of a `usize`.
pub fn fmt_usize(n: usize) -> (s: String)
    ensures
        s@ == decimal(n as nat),
{
    fmt_u64(n as u64)
}

/// Decimal rendering of a `u16`.
pub fn fmt_u16(n: u16) -> (s: String)
    ensures
        s@ == decimal(n as nat),
{
    fmt_u64(n as u64)
}

fn char_digit(c: char) -> (r: Option<u64>)
    ensures
        r.is_some() == is_digit(c),
        r.is_some() ==> r.unwrap() == digit_value(c) && r.unwrap() < 10,
{
    if '0' <= c && c <= '9' {
        Some(((c as u32) - 48) as u64)
    } else {
        None
    }
}

/// Value of the digit string `d[start..]`, or `None` when it is empty, holds a
/// non-digit, or exceeds `bound`.
fn digits_upto(d: &Vec<char>, start: usize, bound: u128) -> (r: Option<u128>)
    requires
        start <= d@.len(),
        bound <= 0x1_0000_0000_0000_0000,
    ensures
        ({
            let t = d@.skip(start as int);
            match r {
                Some(v) => t.len() > 0 && all_digits(t) && digits_value(t) <= bound && v
                    == digits_value(t),
                None => !(t.len() > 0 && all_digits(t) && digits_value(t) <= bound),
            }
        }),
{
    let ghost t = d@.skip(start as int);
    let n = d.len();
    if start == n {
        return None;
    }
    let mut acc: u128 = 0;
    let mut i: usize = start;
    while i < n
        invariant
            start <= i <= n,
            n == d@.len(),
            t == d@.skip(start as int),
            bound <= 0x1_0000_0000_0000_0000,
            acc <= bound,
            all_digits(t.take(i - start)),
            acc == digits_value(t.take(i - start)),
        decreases n - i,
    {
        let c = d[i];
        match char_digit(c) {
            None => {
                assert(t[i - start] == c);
                return None;
            },
            Some(v) => {
                let ghost k = i - start;
                assert(t.take(k + 1).drop_last() =~= t.take(k));
                assert(t.take(k + 1).last() == c);
                let next: u128 = acc * 10 + v as u128;
                if next > bound {
                    proof {
                        lemma_digits_value_prefix(t, k + 1);
                    }
                    return None;
                }
                acc = next;
                assert forall|j: int| 0 <= j < k + 1 implies #[trigger] is_digit(
                    t.take(k + 1)[j],
                ) by {
                    if j < k {
                        assert(t.take(k + 1)[j] == t.take(k)[j]);
                    }
                }
            },
        }
        i = i + 1;
    }
    assert(t.take(n - start) =~= t);
    Some(acc)
}

/// `s.parse::<u32>().ok()`.
pub fn parse_u32(s: &str) -> (r: Option<u32>)
    ensures
        r == parse_u32_spec(s@),
{
    let cs = chars_of(s);
    let start: usize = if cs.len() > 0 && cs[0] == '+' {
        1
    } else {
        0
    };
    assert(cs@.skip(0) =~= cs@);
    match digits_upto(&cs, start, 0xffff_ffff) {
        Some(v) => Some(v as u32),
        None => None,
    }
}

/// `s.parse::<i64>().ok()`.
pub fn parse_i64(s: &str) -> (r: Option<i64>)
    ensures
        r == parse_i64_spec(s@),
{
    let cs = chars_of(s);
    let neg = cs.len() > 0 && cs[0] == '-';
    let start: usize = if cs.len() > 0 && (cs[0] == '+' || cs[0] == '-') {
        1
    } else {
        0
    };
    assert(cs@.skip(0) =~= cs@);
    if neg {
        match digits_upto(&cs, start, 0x8000_0000_0000_0000) {
            Some(v) => Some((-(v as i128)) as i64),
            None => {
                proof {
                    let t = cs@.skip(1);
                    if t.len() > 0 && all_digits(t) {
                        assert(digits_value(t) > 0x8000_0000_0000_0000);
                    }
                }
                None
            },
        }
    } else {
        match digits_upto(&cs, start, 0x7fff_ffff_ffff_ffff) {
            Some(v) => Some(v as i64),
            None => None,
        }
    }
}

// ---------------------------------------------------------------------------
// Columns
// ---------------------------------------------------------------------------

/// `s` cut to at most `max` characters, the cut marked by a trailing `…`.
pub open spec fn truncate_spec(s: Seq<char>, max: nat) -> Seq<char> {
    if s.len() <= max {
        s
    } else {
        s.take(if max > 0 { max - 1 } else { 0 }).push('…')
    }
}

/// `s` left-aligned in a column of `width` characters (`{:<width}`).
pub open spec fn pad_spec(s: Seq<char>, width: nat) -> Seq<char> {
    if s.len() >= width {
        s
    } else {
        s + Seq::new((width - s.len()) as nat, |i: int| ' ')
    }
}

/// Shortens `s` to at most `max` characters, ending a shortened value with `…`.
pub fn truncate(s: &str, max: usize) -> (r: String)
    ensures
        r@ == truncate_spec(s@, max as nat),
        max > 0 ==> r@.len() <= max,
        s@.len() <= max ==> r@ == s@,
{
    let n = s.unicode_len();
    if n <= max {
        String::from_str(s)
    } else {
        let keep: usize = if max > 0 {
            max - 1
        } else {
            0
        };
        let mut out = String::from_str(s.substring_char(0, keep));
        push_char(&mut out, '…');
        assert(out@ =~= truncate_spec(s@, max as nat));
        out
    }
}

/// Pads `s` with spaces on the right to `width` characters.
pub fn pad(s: &str, width: usize) -> (r: String)
    ensures
        r@ == pad_spec(s@, width as nat),
{
    let n = s.unicode_len();
    let mut out = String::from_str(s);
    if n >= width {
        return out;
    }
    let mut i: usize = n;
    while i < width
        invariant
            n == s@.len(),
            n <= i <= width,
            out@ == s@ + Seq::new((i - n) as nat, |k: int| ' '),
        decreases width - i,
    {
        push_char(&mut out, ' ');
        assert(out@ =~= s@ + Seq::new((i + 1 - n) as nat, |k: int| ' '));
        i = i + 1;
    }
    out
}

} // verus!
