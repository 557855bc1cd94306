//! Character classes and trimming for user-supplied names.

use vstd::prelude::*;
use vstd::string::*;

verus! {

/// The code points that carry the Unicode `White_Space` property.
pub open spec fn is_space(c: char) -> bool {
    let n = c as u32;
    ||| 0x09 <= n <= 0x0D
    ||| n == 0x20
    ||| n == 0x85
    ||| n == 0xA0
    ||| n == 0x1680
    ||| 0x2000 <= n <= 0x200A
    ||| n == 0x2028
    ||| n == 0x2029
    ||| n == 0x202F
    ||| n == 0x205F
    ||| n == 0x3000
}

/// Every character of `s` is white space. The empty text is blank.
pub open spec fn is_blank(s: Seq<char>) -> bool {
    forall|i: int| 0 <= i < s.len() ==> is_space(#[trigger] s[i])
}

/// Index of the first character of `s` that is not white space, or the
/// length of `s` when there is none.
pub open spec fn solid_start(s: Seq<char>) -> int
    decreases s.len(),
{
    if s.len() == 0 || !is_space(s[0]) {
        0
    } else {
        1 + solid_start(s.drop_first())
    }
}

/// One past the index of the last character of `s` that is not white
/// space, or zero when there is none.
pub open spec fn solid_end(s: Seq<char>) -> int
    decreases s.len(),
{
    if s.len() == 0 || !is_space(s.last()) {
        s.len() as int
    } else {
        solid_end(s.drop_last())
    }
}

/// `s` without its leading and trailing white space.
pub open spec fn trimmed(s: Seq<char>) -> Seq<char> {
    if solid_start(s) >= solid_end(s) {
        Seq::empty()
    } else {
        s.subrange(solid_start(s), solid_end(s))
    }
}

/// `a` is where the solid part of `s` starts.
pub proof fn solid_start_is(s: Seq<char>, a: int)
    requires
        0 <= a <= s.len(),
        forall|i: int| 0 <= i < a ==> is_space(#[trigger] s[i]),
        a == s.len() || !is_space(s[a]),
    ensures
        solid_start(s) == a,
    decreases a,
{
    if a > 0 {
        let rest = s.drop_first();
        assert(is_space(s[0]));
        assert forall|i: int| 0 <= i < a - 1 implies is_space(#[trigger] rest[i]) by {
            assert(rest[i] == s[i + 1]);
        }
        solid_start_is(rest, a - 1);
    }
}

/// `b` is where the solid part of `s` ends.
pub proof fn solid_end_is(s: Seq<char>, b: int)
    requires
        0 <= b <= s.len(),
        forall|i: int| b <= i < s.len() ==> is_space(#[trigger] s[i]),
        b == 0 || !is_space(s[b - 1]),
    ensures
        solid_end(s) == b,
    decreases s.len() - b,
{
    if b < s.len() {
        let rest = s.drop_last();
        assert(is_space(s[s.len() - 1]));
        assert forall|i: int| b <= i < rest.len() implies is_space(#[trigger] rest[i]) by {
            assert(rest[i] == s[i]);
        }
        solid_end_is(rest, b);
    }
}

/// Trimming a text leaves nothing exactly when the text is blank.
pub proof fn blank_iff_trimmed_empty(s: Seq<char>)
    ensures
        is_blank(s) <==> trimmed(s).len() == 0,
{
    solid_bounds(s);
    if is_blank(s) {
        solid_start_is(s, s.len() as int);
        solid_end_is(s, 0);
    } else {
        let k = choose|k: int| 0 <= k < s.len() && !is_space(s[k]);
        solid_brackets(s, k);
    }
}

/// Both solid bounds lie within the text.
pub proof fn solid_bounds(s: Seq<char>)
    ensures
        0 <= solid_start(s) <= s.len(),
        0 <= solid_end(s) <= s.len(),
    decreases s.len(),
{
    if s.len() > 0 {
        solid_bounds(s.drop_first());
        solid_bounds(s.drop_last());
    }
}

/// A character that is not white space lies between the solid bounds.
pub proof fn solid_brackets(s: Seq<char>, k: int)
    requires
        0 <= k < s.len(),
        !is_space(s[k]),
    ensures
        solid_start(s) <= k < solid_end(s),
    decreases s.len(),
{
    if is_space(s[0]) {
        assert(s.drop_first()[k - 1] == s[k]);
        solid_brackets(s.drop_first(), k - 1);
    }
    if is_space(s.last()) {
        assert(s.drop_last()[k] == s[k]);
        solid_brackets(s.drop_last(), k);
    }
}

/// Whether `c` is white space.
pub fn is_space_char(c: char) -> (b: bool)
    ensures
        b == is_space(c),
{
    let n: u32 = c as u32;
    (0x09 <= n && n <= 0x0D) || n == 0x20 || n == 0x85 || n == 0xA0 || n == 0x1680 || (0x2000 <= n
        && n <= 0x200A) || n == 0x2028 || n == 0x2029 || n == 0x202F || n == 0x205F || n == 0x3000
}

/// Returns `s` without leading and trailing white space.
pub fn trim(s: &str) -> (r: String)
    ensures
        r@ == trimmed(s@),
{
    let n: usize = s.unicode_len();
    let mut a: usize = 0;
    while a < n && is_space_char(s.get_char(a))
        invariant
            n == s@.len(),
            a <= n,
            forall|i: int| 0 <= i < a ==> is_space(#[trigger] s@[i]),
        decreases n - a,
    {
        a = a + 1;
    }
    let mut b: usize = n;
    while b > a && is_space_char(s.get_char(b - 1))
        invariant
            n == s@.len(),
            a <= b <= n,
            forall|i: int| b <= i < n ==> is_space(#[trigger] s@[i]),
        decreases b,
    {
        b = b - 1;
    }
    proof {
        solid_start_is(s@, a as int);
        if b > a {
            solid_end_is(s@, b as int);
        } else {
            solid_bounds(s@);
        }
    }
    String::from_str(s.substring_char(a, b))
}

/// Whether `s` is empty or holds white space only.
pub fn is_blank_text(s: &str) -> (b: bool)
    ensures
        b == is_blank(s@),
{
    let n: usize = s.unicode_len();
    let mut i: usize = 0;
    while i < n
        invariant
            n == s@.len(),
            i <= n,
            forall|j: int| 0 <= j < i ==> is_space(#[trigger] s@[j]),
        decreases n - i,
    {
        if !is_space_char(s.get_char(i)) {
            return false;
        }
        i = i + 1;
    }
    true
}

/// Whether `c` is one of the digits `0` to `9`.
pub open spec fn is_digit(c: char) -> bool {
    0x30 <= c as u32 <= 0x39
}

/// The number that a text of decimal digits writes, or `None` where the
/// text is empty or holds anything but digits.
pub open spec fn decimal(s: Seq<char>) -> Option<nat>
    decreases s.len(),
{
    if s.len() == 0 || !is_digit(s.last()) {
        None
    } else if s.len() == 1 {
        Some((s.last() as u32 - 0x30) as nat)
    } else {
        match decimal(s.drop_last()) {
            Some(v) => Some((v * 10 + (s.last() as u32 - 0x30)) as nat),
            None => None,
        }
    }
}

/// The number that `s` writes, where it writes one that is at most `max`.
pub open spec fn count_within(s: Seq<char>, max: int) -> Option<int> {
    match decimal(s) {
        Some(v) => if v <= max {
            Some(v as int)
        } else {
            None
        },
        None => None,
    }
}

/// A text with a character that is no digit writes no number.
pub proof fn decimal_needs_digits(s: Seq<char>, i: int)
    requires
        0 <= i < s.len(),
        !is_digit(s[i]),
    ensures
        decimal(s) is None,
    decreases s.len(),
{
    if i < s.len() - 1 {
        assert(s.drop_last()[i] == s[i]);
        decimal_needs_digits(s.drop_last(), i);
    }
}

/// A number is at least what any non-empty prefix of its digits writes.
pub proof fn decimal_grows(s: Seq<char>, k: int)
    requires
        1 <= k <= s.len(),
        decimal(s) is Some,
    ensures
        decimal(s.take(k)) is Some,
        decimal(s.take(k))->0 <= decimal(s)->0,
    decreases s.len(),
{
    if k == s.len() {
        assert(s.take(k) =~= s);
    } else {
        assert(s.drop_last().take(k) =~= s.take(k));
        decimal_grows(s.drop_last(), k);
    }
}

/// Reads a number written in decimal digits that is at most `max`.
pub fn read_count(text: &str, max: u64) -> (r: Option<u64>)
    ensures
        match r {
            Some(v) => count_within(text@, max as int) == Some(v as int),
            None => count_within(text@, max as int) is None,
        },
{
    let n: usize = text.unicode_len();
    if n == 0 {
        return None;
    }
    let mut acc: u64 = 0;
    let mut i: usize = 0;
    while i < n
        invariant
            n == text@.len(),
            i <= n,
            acc <= max,
            i > 0 ==> decimal(text@.take(i as int)) == Some(acc as nat),
            i == 0 ==> acc == 0,
        decreases n - i,
    {
        let c = text.get_char(i);
        let code: u32 = c as u32;
        if code < 0x30 || code > 0x39 {
            proof {
                decimal_needs_digits(text@, i as int);
            }
            return None;
        }
        let digit: u64 = (code - 0x30) as u64;
        let wide: u128 = acc as u128 * 10 + digit as u128;
        proof {
            let now = text@.take(i + 1);
            assert(now.last() == c);
            assert(now.drop_last() =~= text@.take(i as int));
            assert(decimal(now) == Some(wide as nat));
        }
        if wide > max as u128 {
            proof {
                if decimal(text@) is Some {
                    decimal_grows(text@, i + 1);
                }
            }
            return None;
        }
        acc = wide as u64;
        i = i + 1;
    }
    assert(text@.take(n as int) =~= text@);
    Some(acc)
}

/// What `str::to_lowercase` makes of a text.
pub uninterp spec fn lowercase(text: Seq<char>) -> Seq<char>;

/// Calls `str::to_lowercase` and hands out the characters of what it
/// returns.
#[verifier::external_body]
pub(crate) fn lowercase_chars(text: &str) -> (r: Vec<char>)
    ensures
        r@ == lowercase(text@),
{
    text.to_lowercase().chars().collect()
}

} // verus!
