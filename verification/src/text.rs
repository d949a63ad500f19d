//! Character-level helpers over strings: decimal rendering, substring
//! search, and the few Unicode-table lookups delegated to std and
//! `unicode-width`.

use unicode_width::UnicodeWidthChar;
use vstd::prelude::*;
use vstd::string::StrSliceExecFns;

verus! {

/// The characters of `s`, in order.
pub fn chars_of(s: &str) -> (v: Vec<char>)
    ensures
        v@ == s@,
{
    let mut v: Vec<char> = Vec::new();
    for c in it: s.chars()
        invariant
            v@ == it.seq().take(it.index() as int),
            it.seq() == s@,
    {
        v.push(c);
    }
    v
}

/// Calls std's `String::push`. The claim, from its documentation: `c` is
/// appended to the end of the string.
#[verifier::external_body]
pub(crate) fn push_char(s: &mut String, c: char)
    ensures
        final(s)@ == old(s)@.push(c),
{
    s.push(c);
}

/// Calls std's `String::pop`. The claim, from its documentation: the last
/// character is removed and returned, or `None` comes back and the string
/// is left as it was when it is empty.
#[verifier::external_body]
pub(crate) fn pop_char(s: &mut String) -> (r: Option<char>)
    ensures
        old(s)@.len() == 0 ==> r is None && final(s)@ == old(s)@,
        old(s)@.len() > 0 ==> r == Some(old(s)@.last()) && final(s)@ == old(s)@.drop_last(),
{
    s.pop()
}

/// A string holding exactly the characters of `v`.
pub fn string_of(v: &Vec<char>) -> (s: String)
    ensures
        s@ == v@,
{
    let mut s = String::new();
    let n = v.len();
    for i in 0..n
        invariant
            n == v@.len(),
            s@ == v@.take(i as int),
    {
        push_char(&mut s, v[i]);
        assert(v@.take(i + 1) =~= v@.take(i as int).push(v@[i as int]));
    }
    assert(v@.take(n as int) =~= v@);
    s
}

/// The decimal digit for `d` (taken below ten).
pub open spec fn digit_char(d: nat) -> char {
    if d == 0 {
        '0'
    } else if d == 1 {
        '1'
    } else if d == 2 {
        '2'
    } else if d == 3 {
        '3'
    } else if d == 4 {
        '4'
    } else if d == 5 {
        '5'
    } else if d == 6 {
        '6'
    } else if d == 7 {
        '7'
    } else if d == 8 {
        '8'
    } else {
        '9'
    }
}

/// Decimal notation of `n`, without leading zeros.
pub open spec fn decimal(n: nat) -> Seq<char>
    decreases n,
{
    if n < 10 {
        seq![digit_char(n)]
    } else {
        decimal(n / 10) + seq![digit_char(n % 10)]
    }
}

fn digit(d: u64) -> (c: char)
    requires
        d < 10,
    ensures
        c == digit_char(d as nat),
{
    if d == 0 {
        '0'
    } else if d == 1 {
        '1'
    } else if d == 2 {
        '2'
    } else if d == 3 {
        '3'
    } else if d == 4 {
        '4'
    } else if d == 5 {
        '5'
    } else if d == 6 {
        '6'
    } else if d == 7 {
        '7'
    } else if d == 8 {
        '8'
    } else {
        '9'
    }
}

/// Decimal notation of `n`, as `to_string` renders an unsigned integer.
pub fn decimal_string(n: u64) -> (s: String)
    ensures
        s@ == decimal(n as nat),
{
    // Digits, least significant first.
    let mut rev: Vec<char> = Vec::new();
    let mut m = n;
    let ghost mut parts: Seq<nat> = seq![];
    rev.push(digit(m % 10));
    m = m / 10;
    while m > 0
        invariant
            m < n || (m == 0 && n == 0) || m <= n,
            rev@.len() >= 1,
            m > 0 ==> decimal(n as nat) == decimal(m as nat) + rev@.reverse(),
            m == 0 ==> decimal(n as nat) == rev@.reverse(),
        decreases m,
    {
        let ghost before = rev@;
        let d = m % 10;
        rev.push(digit(d));
        m = m / 10;
        proof {
            assert(rev@.reverse() =~= seq![digit_char(d as nat)] + before.reverse());
        }
    }
    let mut out: Vec<char> = Vec::new();
    let len = rev.len();
    let mut k: usize = len;
    while k > 0
        invariant
            k <= len,
            len == rev@.len(),
            out@ =~= rev@.subrange(k as int, len as int).reverse(),
        decreases k,
    {
        k = k - 1;
        out.push(rev[k]);
        assert(rev@.subrange(k as int, len as int).reverse() =~= rev@.subrange(
            (k + 1) as int,
            len as int,
        ).reverse().push(rev@[k as int]));
    }
    assert(rev@.subrange(0, len as int) =~= rev@);
    string_of(&out)
}

/// Whether `needle` occurs as a contiguous run inside `hay`.
pub open spec fn occurs_in(needle: Seq<char>, hay: Seq<char>) -> bool {
    exists|i: int|
        0 <= i <= hay.len() - needle.len() && #[trigger] hay.subrange(i, i + needle.len())
            == needle
}

/// Whether `needle` occurs at position `i` of `hay`.
fn occurs_at(hay: &Vec<char>, needle: &Vec<char>, i: usize) -> (b: bool)
    requires
        i + needle@.len() <= hay@.len(),
    ensures
        b == (hay@.subrange(i as int, i + needle@.len()) == needle@),
{
    let n = needle.len();
    let mut k: usize = 0;
    while k < n
        invariant
            n == needle@.len(),
            i + n <= hay.len(),
            k <= n,
            forall|j: int| 0 <= j < k ==> hay@[i + j] == needle@[j],
        decreases n - k,
    {
        if hay[i + k] != needle[k] {
            assert(hay@.subrange(i as int, i + needle@.len())[k as int] != needle@[k as int]);
            return false;
        }
        k = k + 1;
    }
    assert(hay@.subrange(i as int, i + needle@.len()) =~= needle@);
    true
}

/// Substring search, as std's `str::contains` with a string pattern.
pub fn contains_chars(hay: &Vec<char>, needle: &Vec<char>) -> (b: bool)
    ensures
        b == occurs_in(needle@, hay@),
{
    if needle.len() == 0 {
        assert(hay@.subrange(0int, 0int + needle@.len()) =~= needle@);
        return true;
    }
    if needle.len() > hay.len() {
        return false;
    }
    let end = hay.len() - needle.len() + 1;
    let mut i: usize = 0;
    while i < end
        invariant
            end == hay@.len() - needle@.len() + 1,
            i <= end,
            forall|j: int| 0 <= j < i ==> #[trigger] hay@.subrange(j, j + needle@.len()) != needle@,
        decreases end - i,
    {
        if occurs_at(hay, needle, i) {
            return true;
        }
        i = i + 1;
    }
    false
}

/// Whether `c` has the Unicode `White_Space` property, as std's
/// `char::is_whitespace` reports it.
pub open spec fn spec_is_whitespace(c: char) -> bool {
    let u = c as u32;
    (0x9 <= u <= 0xd) || u == 0x20 || u == 0x85 || u == 0xa0 || u == 0x1680 || (0x2000 <= u
        <= 0x200a) || u == 0x2028 || u == 0x2029 || u == 0x202f || u == 0x205f || u == 0x3000
}

pub fn is_whitespace(c: char) -> (b: bool)
    ensures
        b == spec_is_whitespace(c),
{
    let u = c as u32;
    (0x9 <= u && u <= 0xd) || u == 0x20 || u == 0x85 || u == 0xa0 || u == 0x1680 || (0x2000 <= u
        && u <= 0x200a) || u == 0x2028 || u == 0x2029 || u == 0x202f || u == 0x205f || u == 0x3000
}

/// The maximal runs of non-whitespace characters of `s`, in order, as
/// std's `str::split_whitespace` yields them.
pub open spec fn split_words(s: Seq<char>) -> Seq<Seq<char>>
    decreases s.len(),
{
    if s.len() == 0 {
        seq![]
    } else {
        let pre = split_words(s.drop_last());
        let c = s.last();
        if spec_is_whitespace(c) {
            pre
        } else if s.len() >= 2 && !spec_is_whitespace(s[s.len() - 2]) {
            pre.update(pre.len() - 1, pre.last().push(c))
        } else {
            pre.push(seq![c])
        }
    }
}

/// The whitespace-separated words of `s` (see [`split_words`]).
pub fn split_whitespace(s: &str) -> (words: Vec<String>)
    ensures
        words@.map_values(|w: String| w@) == split_words(s@),
{
    let cs = chars_of(s);
    let n = cs.len();
    let mut out: Vec<String> = Vec::new();
    let mut cur: Vec<char> = Vec::new();
    for k in 0..n
        invariant
            n == cs@.len(),
            cs@ == s@,
            cur@.len() > 0 <==> (k > 0 && !spec_is_whitespace(cs@[k - 1])),
            split_words(cs@.take(k as int)) == out@.map_values(|w: String| w@) + if cur@.len() > 0 {
                seq![cur@]
            } else {
                seq![]
            },
    {
        let c = cs[k];
        let ghost pre = split_words(cs@.take(k as int));
        assert(cs@.take(k + 1).drop_last() =~= cs@.take(k as int));
        if is_whitespace(c) {
            if cur.len() > 0 {
                let w = string_of(&cur);
                out.push(w);
                cur = Vec::new();
                assert(out@.map_values(|w: String| w@) =~= pre);
            } else {
                assert(out@.map_values(|w: String| w@) + seq![] =~= out@.map_values(|w: String| w@));
            }
        } else {
            let ghost old_cur = cur@;
            let had = cur.len() > 0;
            cur.push(c);
            if had {
                assert(pre == out@.map_values(|w: String| w@) + seq![old_cur]);
                assert(out@.map_values(|w: String| w@) + seq![cur@] =~= pre.update(
                    pre.len() - 1,
                    pre.last().push(c),
                ));
            } else {
                assert(pre =~= out@.map_values(|w: String| w@));
                assert(cur@ =~= seq![c]);
                assert(out@.map_values(|w: String| w@) + seq![cur@] =~= pre.push(seq![c]));
            }
        }
    }
    assert(cs@.take(n as int) =~= cs@);
    if cur.len() > 0 {
        let ghost pre = out@.map_values(|w: String| w@);
        out.push(string_of(&cur));
        assert(out@.map_values(|w: String| w@) =~= pre + seq![cur@]);
    } else {
        assert(out@.map_values(|w: String| w@) + seq![] =~= out@.map_values(|w: String| w@));
    }
    out
}

/// What std's `str::to_lowercase` returns for a string. Its result follows
/// the Unicode case tables and depends on the string alone.
pub uninterp spec fn lowercase(s: Seq<char>) -> Seq<char>;

/// Calls std's `str::to_lowercase`. The claim: the result is the lowercase
/// form named by `lowercase`.
#[verifier::external_body]
pub(crate) fn to_lowercase(s: &str) -> (r: String)
    ensures
        r@ == lowercase(s@),
{
    s.to_lowercase()
}

/// What std's `char::to_uppercase` yields for a character, collected into a
/// string. It follows the Unicode case tables and depends on the character
/// alone.
pub uninterp spec fn uppercase(c: char) -> Seq<char>;

/// Calls std's `char::to_uppercase` and collects the characters. The claim:
/// the result is the uppercase form named by `uppercase`.
#[verifier::external_body]
pub(crate) fn char_to_uppercase(c: char) -> (r: String)
    ensures
        r@ == uppercase(c),
{
    c.to_uppercase().collect::<String>()
}

/// `s` without its leading whitespace.
pub open spec fn trim_start(s: Seq<char>) -> Seq<char>
    decreases s.len(),
{
    if s.len() > 0 && spec_is_whitespace(s[0]) {
        trim_start(s.drop_first())
    } else {
        s
    }
}

/// `s` without its trailing whitespace.
pub open spec fn trim_end(s: Seq<char>) -> Seq<char>
    decreases s.len(),
{
    if s.len() > 0 && spec_is_whitespace(s.last()) {
        trim_end(s.drop_last())
    } else {
        s
    }
}

/// `s` without leading and trailing Unicode whitespace.
pub open spec fn trimmed(s: Seq<char>) -> Seq<char> {
    trim_end(trim_start(s))
}

/// `s` without leading and trailing Unicode whitespace, as std's
/// `str::trim` gives it.
pub(crate) fn trim(s: &str) -> (r: &str)
    ensures
        r@ == trimmed(s@),
{
    let cs = chars_of(s);
    let n = cs.len();
    let mut a: usize = 0;
    assert(s@.subrange(0, n as int) =~= s@);
    while a < n && is_whitespace(cs[a])
        invariant
            n == cs@.len(),
            cs@ == s@,
            a <= n,
            trim_start(s@) == trim_start(s@.subrange(a as int, n as int)),
        decreases n - a,
    {
        assert(s@.subrange(a as int, n as int).drop_first() =~= s@.subrange(a + 1, n as int));
        a = a + 1;
    }
    assert(trim_start(s@) == s@.subrange(a as int, n as int));
    let mut b: usize = n;
    while b > a && is_whitespace(cs[b - 1])
        invariant
            n == cs@.len(),
            cs@ == s@,
            a <= b <= n,
            trimmed(s@) == trim_end(s@.subrange(a as int, b as int)),
        decreases b - a,
    {
        assert(s@.subrange(a as int, b as int).drop_last() =~= s@.subrange(a as int, b - 1));
        b = b - 1;
    }
    assert(trimmed(s@) == s@.subrange(a as int, b as int));
    s.substring_char(a, b)
}

/// What `unicode_width::UnicodeWidthChar::width` reports for a character:
/// its display width in columns, or `None` for control characters. It
/// follows the crate's Unicode tables and depends on the character alone.
pub uninterp spec fn char_width(c: char) -> Option<usize>;

/// Calls `UnicodeWidthChar::width`. The claim: the result is the width named
/// by `char_width`; as the crate's source shows, printable ASCII is one
/// column wide, the C0 and C1 control characters have no width, and every
/// other width comes from a `u8` table entry.
#[verifier::external_body]
pub(crate) fn display_width(c: char) -> (w: Option<usize>)
    ensures
        w == char_width(c),
        '\u{20}' <= c < '\u{7f}' ==> w == Some(1usize),
        (c < '\u{20}' || ('\u{7f}' <= c < '\u{a0}')) ==> w is None,
        w matches Some(x) ==> x <= 255,
{
    UnicodeWidthChar::width(c)
}

/// Whether `c` is one of the ASCII digits `0`..`9`.
pub open spec fn is_digit(c: char) -> bool {
    '0' <= c <= '9'
}

/// The number the digits `d` spell in decimal.
pub open spec fn digits_value(d: Seq<char>) -> nat
    decreases d.len(),
{
    if d.len() == 0 {
        0
    } else {
        digits_value(d.drop_last()) * 10 + (d.last() as nat - '0' as nat) as nat
    }
}

/// `s` without one leading `+`, if it has one.
pub open spec fn unsigned_digits(s: Seq<char>) -> Seq<char> {
    if s.len() > 0 && s[0] == '+' {
        s.drop_first()
    } else {
        s
    }
}

/// Whether every character of `d` is an ASCII digit.
pub open spec fn all_digits(d: Seq<char>) -> bool {
    forall|i: int| 0 <= i < d.len() ==> is_digit(#[trigger] d[i])
}

/// What parsing `s` as an unsigned integer no larger than `max` gives, as
/// std's integer parsing does: an optional `+` followed by one or more
/// ASCII digits, whose value must not exceed `max`; anything else fails.
pub open spec fn parsed_unsigned(s: Seq<char>, max: nat) -> Option<nat> {
    let d = unsigned_digits(s);
    if d.len() > 0 && all_digits(d) && digits_value(d) <= max {
        Some(digits_value(d))
    } else {
        None
    }
}

proof fn lemma_digits_value_grows(d: Seq<char>, i: int, j: int)
    requires
        0 <= i <= j <= d.len(),
        forall|k: int| 0 <= k < d.len() ==> is_digit(#[trigger] d[k]),
    ensures
        digits_value(d.take(i)) <= digits_value(d.take(j)),
    decreases j - i,
{
    if i < j {
        lemma_digits_value_grows(d, i, j - 1);
        assert(d.take(j).drop_last() =~= d.take(j - 1));
    }
}

/// Parses `s` as an unsigned decimal number no larger than `max`, the way
/// std parses `u64` and `u16`: `None` for an empty string, a stray
/// character, or a value past `max`.
pub fn parse_unsigned(s: &str, max: u64) -> (r: Option<u64>)
    ensures
        r matches Some(v) ==> parsed_unsigned(s@, max as nat) == Some(v as nat),
        r is None ==> parsed_unsigned(s@, max as nat) is None,
{
    let cs = chars_of(s);
    let n = cs.len();
    let start: usize = if n > 0 && cs[0] == '+' {
        1
    } else {
        0
    };
    let ghost d = unsigned_digits(s@);
    assert(d =~= cs@.skip(start as int));
    if start >= n {
        return None;
    }
    let mut value: u64 = 0;
    let mut over = false;
    let mut i = start;
    while i < n
        invariant
            start <= i <= n,
            n == cs@.len(),
            d == cs@.skip(start as int),
            d == unsigned_digits(s@),
            forall|k: int| start <= k < i ==> is_digit(#[trigger] cs@[k]),
            !over ==> value == digits_value(d.take(i - start)),
            over ==> digits_value(d.take(i - start)) > max,
            value <= max,
        decreases n - i,
    {
        let c = cs[i];
        if !('0' <= c && c <= '9') {
            assert(d[i - start] == cs@[i as int]);
            assert(!is_digit(d[i - start]));
            return None;
        }
        assert(d.take(i - start + 1).drop_last() =~= d.take(i - start));
        if !over {
            let digit = (c as u64) - ('0' as u64);
            if digit > max || value > (max - digit) / 10 {
                over = true;
                assert(digits_value(d.take(i - start + 1)) > max) by (nonlinear_arith)
                    requires
                        digits_value(d.take(i - start + 1)) == value * 10 + digit,
                        digit > max || value > (max - digit) / 10,
                        digit <= 9,
                        value >= 0,
                ;
            } else {
                assert(value * 10 + digit <= max) by (nonlinear_arith)
                    requires
                        value <= (max - digit) / 10,
                        digit <= max,
                ;
                value = value * 10 + digit;
            }
        } else {
            proof {
                assert forall|k: int| 0 <= k < i - start + 1 implies is_digit(#[trigger] d.take(i - start + 1)[k]) by {
                    assert(d.take(i - start + 1)[k] == cs@[start + k]);
                }
                lemma_digits_value_grows(d.take(i - start + 1), i - start, i - start + 1);
                assert(d.take(i - start + 1).take(i - start) =~= d.take(i - start));
                assert(d.take(i - start + 1).take(i - start + 1) =~= d.take(i - start + 1));
            }
        }
        i = i + 1;
    }
    assert(d.take(n - start) =~= d);
    if over {
        None
    } else {
        Some(value)
    }
}

} // verus!
