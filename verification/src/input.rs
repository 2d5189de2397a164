//! Reading what the user typed: stripping white space from a line and
//! turning a decimal numeral into an integer.

use crate::text::{decimal, signed_decimal};
use vstd::prelude::*;

verus! {

/// Whether `c` is white space: the characters with the Unicode property
/// `White_Space`.
pub open spec fn is_space(c: char) -> bool {
    let u = c as u32;
    ||| 0x09 <= u <= 0x0D
    ||| u == 0x20
    ||| u == 0x85
    ||| u == 0xA0
    ||| u == 0x1680
    ||| 0x2000 <= u <= 0x200A
    ||| u == 0x2028
    ||| u == 0x2029
    ||| u == 0x202F
    ||| u == 0x205F
    ||| u == 0x3000
}

/// `s` without the white space at its start.
pub open spec fn strip_front(s: Seq<char>) -> Seq<char>
    decreases s.len(),
{
    if s.len() > 0 && is_space(s[0]) {
        strip_front(s.drop_first())
    } else {
        s
    }
}

/// `s` without the white space at its end.
pub open spec fn strip_back(s: Seq<char>) -> Seq<char>
    decreases s.len(),
{
    if s.len() > 0 && is_space(s.last()) {
        strip_back(s.drop_last())
    } else {
        s
    }
}

/// `s` without the white space at either end.
pub open spec fn stripped(s: Seq<char>) -> Seq<char> {
    strip_back(strip_front(s))
}

/// Whether `c` is one of the ten decimal digits.
pub open spec fn is_digit(c: char) -> bool {
    0x30 <= c as u32 <= 0x39
}

/// The value of a decimal digit; zero for any other character.
pub open spec fn digit_value(c: char) -> nat {
    if is_digit(c) {
        (c as u32 - 0x30) as nat
    } else {
        0
    }
}

/// Whether `s` holds decimal digits only.
pub open spec fn all_digits(s: Seq<char>) -> bool {
    forall|i: int| 0 <= i < s.len() ==> is_digit(#[trigger] s[i])
}

/// The number that the digits of `s` denote, read in base ten.
pub open spec fn digits_value(s: Seq<char>) -> nat
    decreases s.len(),
{
    if s.len() == 0 {
        0
    } else {
        digits_value(s.drop_last()) * 10 + digit_value(s.last())
    }
}

/// The number that an unsigned numeral denotes: one or more digits.
pub open spec fn magnitude(s: Seq<char>) -> Option<int> {
    if s.len() > 0 && all_digits(s) {
        Some(digits_value(s) as int)
    } else {
        None
    }
}

/// The number that a numeral denotes: a `+` may come first, a `-` too
/// where `signed` allows it, and then one or more digits. Anything else,
/// white space included, denotes nothing.
pub open spec fn numeral(s: Seq<char>, signed: bool) -> Option<int> {
    if s.len() > 0 && s[0] == '+' {
        magnitude(s.drop_first())
    } else if signed && s.len() > 0 && s[0] == '-' {
        match magnitude(s.drop_first()) {
            Some(v) => Some(-v),
            None => None,
        }
    } else {
        magnitude(s)
    }
}

/// The number that `s` denotes as a numeral, if it lies between `low` and
/// `high`.
pub open spec fn numeral_within(s: Seq<char>, signed: bool, low: int, high: int) -> Option<int> {
    match numeral(s, signed) {
        Some(v) => if low <= v <= high {
            Some(v)
        } else {
            None
        },
        None => None,
    }
}

/// What `s` denotes as a 32-bit signed integer.
pub open spec fn signed_numeral(s: Seq<char>) -> Option<int> {
    numeral_within(s, true, i32::MIN as int, i32::MAX as int)
}

/// What `s` denotes as a 32-bit unsigned integer.
pub open spec fn unsigned_numeral(s: Seq<char>) -> Option<int> {
    numeral_within(s, false, 0, u32::MAX as int)
}

/// A prefix of a digit string denotes no more than the whole string.
proof fn lemma_prefix_value(s: Seq<char>, k: int)
    requires
        0 <= k <= s.len(),
    ensures
        digits_value(s.take(k)) <= digits_value(s),
    decreases s.len() - k,
{
    if k == s.len() {
        assert(s.take(k) == s);
    } else {
        lemma_prefix_value(s.drop_last(), k);
        assert(s.drop_last().take(k) == s.take(k));
    }
}

/// Tells white space from other characters.
pub fn space(c: char) -> (b: bool)
    ensures
        b == is_space(c),
{
    let u: u32 = c as u32;
    (0x09 <= u && u <= 0x0D) || u == 0x20 || u == 0x85 || u == 0xA0 || u == 0x1680 || (0x2000 <= u
        && u <= 0x200A) || u == 0x2028 || u == 0x2029 || u == 0x202F || u == 0x205F || u == 0x3000
}

/// The characters of a string, in order.
fn chars_of(s: &str) -> (chars: Vec<char>)
    ensures
        chars@ == s@,
{
    let mut chars: Vec<char> = Vec::new();
    for c in it: s.chars()
        invariant
            it.seq() == s@,
            chars@ == it.seq().take(it.index()),
    {
        chars.push(c);
    }
    chars
}

/// The line without the white space at its start and at its end.
pub fn trimmed(line: &str) -> (t: String)
    ensures
        t@ == stripped(line@),
{
    let chars = chars_of(line);
    let n = chars.len();
    let mut start: usize = 0;
    assert(line@.subrange(0, n as int) == line@);
    while start < n && space(chars[start])
        invariant
            start <= n,
            n == line@.len(),
            chars@ == line@,
            strip_front(line@) == strip_front(line@.subrange(start as int, n as int)),
        decreases n - start,
    {
        assert(line@.subrange(start as int, n as int).drop_first() == line@.subrange(
            start + 1,
            n as int,
        ));
        start += 1;
    }
    let mut end: usize = n;
    while end > start && space(chars[end - 1])
        invariant
            start <= end <= n,
            n == line@.len(),
            chars@ == line@,
            strip_back(line@.subrange(start as int, n as int)) == strip_back(
                line@.subrange(start as int, end as int),
            ),
        decreases end - start,
    {
        assert(line@.subrange(start as int, end as int).drop_last() == line@.subrange(
            start as int,
            end - 1,
        ));
        end -= 1;
    }
    String::from_str(line.substring_char(start, end))
}

/// Reads the characters from position `from` on as a run of digits that
/// denotes at most `limit`.
fn parse_digits(chars: &Vec<char>, from: usize, limit: u64) -> (r: Option<u64>)
    requires
        from <= chars@.len(),
        limit <= 0x1_0000_0000,
    ensures
        match magnitude(chars@.skip(from as int)) {
            Some(v) => if v <= limit {
                r == Some(v as u64)
            } else {
                r is None
            },
            None => r is None,
        },
{
    let n = chars.len();
    let ghost body = chars@.skip(from as int);
    if from == n {
        return None;
    }
    let mut i: usize = from;
    let mut value: u64 = 0;
    while i < n
        invariant
            from <= i <= n,
            n == chars@.len(),
            body == chars@.skip(from as int),
            all_digits(body.take(i - from)),
            value == digits_value(body.take(i - from)),
            value <= limit <= 0x1_0000_0000,
        decreases n - i,
    {
        let c = chars[i];
        let u: u32 = c as u32;
        let ghost seen = body.take(i - from + 1);
        proof {
            assert(body[i - from] == c);
            assert(seen.drop_last() == body.take(i - from));
            assert(seen.last() == c);
            lemma_prefix_value(body, i - from + 1);
        }
        if u < 0x30 || u > 0x39 {
            assert(!is_digit(body[i - from]));
            return None;
        }
        value = value * 10 + (u - 0x30) as u64;
        if value > limit {
            return None;
        }
        assert forall|j: int| 0 <= j < seen.len() implies is_digit(#[trigger] seen[j]) by {
            if j < i - from {
                assert(body.take(i - from)[j] == seen[j]);
            }
        }
        i += 1;
    }
    assert(body.take(n - from) == body);
    Some(value)
}

/// Reads a 32-bit signed integer: an optional `+` or `-`, then digits.
pub fn parse_i32(s: &str) -> (r: Option<i32>)
    ensures
        match r {
            Some(v) => signed_numeral(s@) == Some(v as int),
            None => signed_numeral(s@) is None,
        },
{
    let chars = chars_of(s);
    if chars.len() == 0 {
        return None;
    }
    let first = chars[0];
    assert(s@.skip(0) == s@);
    assert(s@.skip(1) == s@.drop_first());
    if first == '-' {
        match parse_digits(&chars, 1, 0x8000_0000) {
            Some(m) => Some((-(m as i64)) as i32),
            None => None,
        }
    } else if first == '+' {
        match parse_digits(&chars, 1, 0x7fff_ffff) {
            Some(m) => Some(m as i32),
            None => None,
        }
    } else {
        match parse_digits(&chars, 0, 0x7fff_ffff) {
            Some(m) => Some(m as i32),
            None => None,
        }
    }
}

/// Reads a 32-bit unsigned integer: an optional `+`, then digits.
pub fn parse_u32(s: &str) -> (r: Option<u32>)
    ensures
        match r {
            Some(v) => unsigned_numeral(s@) == Some(v as int),
            None => unsigned_numeral(s@) is None,
        },
{
    let chars = chars_of(s);
    if chars.len() == 0 {
        return None;
    }
    let first = chars[0];
    assert(s@.skip(0) == s@);
    assert(s@.skip(1) == s@.drop_first());
    let from: usize = if first == '+' {
        1
    } else {
        0
    };
    match parse_digits(&chars, from, 0xffff_ffff) {
        Some(m) => Some(m as u32),
        None => None,
    }
}

/// The white space at the start of `s` ends at the position returned:
/// what `strip_front` leaves begins there.
proof fn lemma_strip_front(s: Seq<char>) -> (i: int)
    ensures
        0 <= i <= s.len(),
        strip_front(s) == s.skip(i),
        forall|k: int| 0 <= k < i ==> is_space(#[trigger] s[k]),
        i < s.len() ==> !is_space(s[i]),
    decreases s.len(),
{
    if s.len() > 0 && is_space(s[0]) {
        let rest = s.drop_first();
        let j = lemma_strip_front(rest);
        assert(rest.skip(j) == s.skip(j + 1));
        assert forall|k: int| 0 <= k < j + 1 implies is_space(#[trigger] s[k]) by {
            if k > 0 {
                assert(s[k] == rest[k - 1]);
            }
        }
        if j + 1 < s.len() {
            assert(s[j + 1] == rest[j]);
        }
        j + 1
    } else {
        assert(s.skip(0) == s);
        0
    }
}

/// The white space at the end of `s` begins at the position returned:
/// what `strip_back` leaves ends there.
proof fn lemma_strip_back(s: Seq<char>) -> (j: int)
    ensures
        0 <= j <= s.len(),
        strip_back(s) == s.take(j),
        forall|k: int| j <= k < s.len() ==> is_space(#[trigger] s[k]),
        j > 0 ==> !is_space(s[j - 1]),
    decreases s.len(),
{
    if s.len() > 0 && is_space(s.last()) {
        let rest = s.drop_last();
        let j = lemma_strip_back(rest);
        assert(rest.take(j) == s.take(j));
        assert forall|k: int| j <= k < s.len() implies is_space(#[trigger] s[k]) by {
            if k < s.len() - 1 {
                assert(s[k] == rest[k]);
            }
        }
        if j > 0 {
            assert(s[j - 1] == rest[j - 1]);
        }
        j
    } else {
        assert(s.take(s.len() as int) == s);
        s.len() as int
    }
}

/// What stripping leaves of `s` is the stretch of `s` between the two
/// positions returned. There is nothing but white space before it and
/// after it, and it neither begins nor ends with white space.
pub proof fn lemma_stripped(s: Seq<char>) -> (bounds: (int, int))
    ensures
        0 <= bounds.0 <= bounds.1 <= s.len(),
        stripped(s) == s.subrange(bounds.0, bounds.1),
        forall|k: int| 0 <= k < bounds.0 ==> is_space(#[trigger] s[k]),
        forall|k: int| bounds.1 <= k < s.len() ==> is_space(#[trigger] s[k]),
        bounds.0 < bounds.1 ==> !is_space(s[bounds.0]) && !is_space(s[bounds.1 - 1]),
{
    let i = lemma_strip_front(s);
    let tail = s.skip(i);
    let j = lemma_strip_back(tail);
    assert(tail.take(j) == s.subrange(i, i + j));
    assert forall|k: int| i + j <= k < s.len() implies is_space(#[trigger] s[k]) by {
        assert(s[k] == tail[k - i]);
    }
    if j > 0 {
        assert(tail[j - 1] == s[i + j - 1]);
    }
    (i, i + j)
}

/// The decimal numeral of a natural number holds digits only, at least
/// one, and denotes that number.
pub proof fn lemma_decimal_denotes(n: nat)
    ensures
        decimal(n).len() > 0,
        all_digits(decimal(n)),
        digits_value(decimal(n)) == n,
    decreases n,
{
    if n < 10 {
        let s = decimal(n);
        assert(s.drop_last() == Seq::<char>::empty());
        assert(digits_value(s.drop_last()) == 0);
    } else {
        lemma_decimal_denotes(n / 10);
        let head = decimal(n / 10);
        let s = decimal(n);
        assert(s.drop_last() == head);
        assert forall|i: int| 0 <= i < s.len() implies is_digit(#[trigger] s[i]) by {
            if i < head.len() {
                assert(s[i] == head[i]);
            }
        }
    }
}

/// A 32-bit signed integer, written out in decimal, reads back as itself.
pub proof fn lemma_signed_numeral_of_decimal(n: int)
    requires
        i32::MIN <= n <= i32::MAX,
    ensures
        signed_numeral(signed_decimal(n)) == Some(n),
{
    if n < 0 {
        lemma_decimal_denotes((-n) as nat);
        assert(signed_decimal(n).drop_first() == decimal((-n) as nat));
    } else {
        lemma_decimal_denotes(n as nat);
    }
}

/// A 32-bit unsigned integer, written out in decimal, reads back as
/// itself.
pub proof fn lemma_unsigned_numeral_of_decimal(n: nat)
    requires
        n <= u32::MAX,
    ensures
        unsigned_numeral(decimal(n)) == Some(n as int),
{
    lemma_decimal_denotes(n);
}

} // verus!
