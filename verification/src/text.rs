//! Questions about texts that the parser asks: whether a text is a whole
//! number, whether one text occurs inside another, and what is left of a text
//! behind its first characters.

use vstd::prelude::*;
use vstd::string::*;

verus! {

/// Whether `c` is one of the ten digits `0` to `9`.
pub open spec fn is_digit(c: char) -> bool {
    '0' <= c <= '9'
}

/// Whether `s` holds digits and nothing else.
pub open spec fn all_digits(s: Seq<char>) -> bool {
    forall|i: int| 0 <= i < s.len() ==> is_digit(#[trigger] s[i])
}

/// The number that a run of digits writes down in base ten; an empty run
/// writes 0.
pub open spec fn digits_value(s: Seq<char>) -> nat
    decreases s.len(),
{
    if s.len() == 0 {
        0
    } else {
        (digits_value(s.drop_last()) * 10 + (s.last() as nat - '0' as nat)) as nat
    }
}

/// Whether `s` writes down a number that fits in 32 bits with a sign: an
/// optional `+` or `-`, then at least one digit and nothing else, the number
/// lying between -2147483648 and 2147483647.
pub open spec fn is_integer_text(s: Seq<char>) -> bool {
    if s.len() > 0 && s[0] == '-' {
        let digits = s.subrange(1, s.len() as int);
        digits.len() > 0 && all_digits(digits) && digits_value(digits) <= 2147483648
    } else if s.len() > 0 && s[0] == '+' {
        let digits = s.subrange(1, s.len() as int);
        digits.len() > 0 && all_digits(digits) && digits_value(digits) <= 2147483647
    } else {
        s.len() > 0 && all_digits(s) && digits_value(s) <= 2147483647
    }
}

/// Whether `needle` stands at position `at` of `hay`.
pub open spec fn occurs_at(hay: Seq<char>, needle: Seq<char>, at: int) -> bool {
    0 <= at && at + needle.len() <= hay.len() && hay.subrange(at, at + needle.len()) == needle
}

/// Whether `needle` occurs somewhere inside `hay`. The empty text occurs in
/// every text.
pub open spec fn contains_text(hay: Seq<char>, needle: Seq<char>) -> bool {
    exists|at: int| occurs_at(hay, needle, at)
}

/// What is left of `s` behind its first `n` characters; nothing where `s` has
/// no more than `n`.
pub open spec fn skip_chars(s: Seq<char>, n: nat) -> Seq<char> {
    if n <= s.len() {
        s.subrange(n as int, s.len() as int)
    } else {
        Seq::empty()
    }
}

/// The characters of `s`, one by one.
pub fn chars_of(s: &str) -> (r: Vec<char>)
    ensures
        r@ == s@,
{
    let mut r: Vec<char> = Vec::new();
    for c in it: s.chars()
        invariant
            it.seq() == s@,
            r@ == it.seq().take(it.index() as int),
    {
        r.push(c);
    }
    r
}

/// Adding a digit to a run of digits only makes the number larger.
proof fn lemma_digits_value_step(s: Seq<char>, n: int)
    requires
        0 <= n < s.len(),
        is_digit(s[n]),
    ensures
        digits_value(s.take(n + 1)) == digits_value(s.take(n)) * 10 + (s[n] as nat - '0' as nat),
        digits_value(s.take(n + 1)) >= digits_value(s.take(n)),
{
    assert(s.take(n + 1).drop_last() =~= s.take(n));
    assert(s.take(n + 1).last() == s[n]);
}

/// Whether the digits of `chars` from position `from` on write down a number
/// that is no larger than `limit`.
fn digits_within(chars: &Vec<char>, from: usize, limit: u64) -> (r: bool)
    requires
        from <= chars.len(),
        limit <= 4294967295,
    ensures
        r == ({
            let digits = chars@.subrange(from as int, chars.len() as int);
            digits.len() > 0 && all_digits(digits) && digits_value(digits) <= limit
        }),
{
    let ghost digits = chars@.subrange(from as int, chars.len() as int);
    if from == chars.len() {
        return false;
    }
    let mut value: u64 = 0;
    let mut over = false;
    let mut i: usize = from;
    while i < chars.len()
        invariant
            from <= i <= chars.len(),
            limit <= 4294967295,
            digits == chars@.subrange(from as int, chars.len() as int),
            all_digits(digits.take(i - from)),
            over ==> digits_value(digits.take(i - from)) > limit,
            !over ==> value == digits_value(digits.take(i - from)) && value <= limit,
        decreases chars.len() - i,
    {
        let c = chars[i];
        assert(digits[i - from] == c);
        if c < '0' || c > '9' {
            assert(!is_digit(digits[i - from]));
            return false;
        }
        proof {
            lemma_digits_value_step(digits, i - from);
            assert forall|k: int| 0 <= k < digits.take(i - from + 1).len() implies is_digit(
                #[trigger] digits.take(i - from + 1)[k],
            ) by {
                if k < i - from {
                    assert(digits.take(i - from)[k] == digits[k]);
                }
            }
        }
        if !over {
            let d: u64 = (c as u32 - '0' as u32) as u64;
            value = value * 10 + d;
            if value > limit {
                over = true;
            }
        }
        i += 1;
    }
    assert(digits.take(i - from) =~= digits);
    !over
}

/// Whether `s` writes down a number that fits in 32 bits with a sign.
pub fn is_integer(s: &str) -> (r: bool)
    ensures
        r == is_integer_text(s@),
{
    let chars = chars_of(s);
    if chars.len() > 0 && chars[0] == '-' {
        digits_within(&chars, 1, 2147483648)
    } else if chars.len() > 0 && chars[0] == '+' {
        digits_within(&chars, 1, 2147483647)
    } else {
        let r = digits_within(&chars, 0, 2147483647);
        assert(chars@.subrange(0, chars.len() as int) =~= chars@);
        r
    }
}

/// Whether `needle` stands at position `at` of `hay`.
fn matches_at(hay: &Vec<char>, needle: &Vec<char>, at: usize) -> (r: bool)
    requires
        at + needle.len() <= hay.len(),
    ensures
        r == occurs_at(hay@, needle@, at as int),
{
    let mut k: usize = 0;
    while k < needle.len()
        invariant
            k <= needle.len(),
            at + needle.len() <= hay.len(),
            forall|j: int| 0 <= j < k ==> hay@[at + j] == needle@[j],
        decreases needle.len() - k,
    {
        if hay[at + k] != needle[k] {
            assert(hay@.subrange(at as int, at + needle.len())[k as int] != needle@[k as int]);
            return false;
        }
        k += 1;
    }
    assert(hay@.subrange(at as int, at + needle.len()) =~= needle@);
    true
}

/// Whether `needle` occurs somewhere inside `hay`.
pub fn contains(hay: &str, needle: &str) -> (r: bool)
    ensures
        r == contains_text(hay@, needle@),
{
    let hay_chars = chars_of(hay);
    let needle_chars = chars_of(needle);
    if needle_chars.len() > hay_chars.len() {
        assert(forall|at: int| !occurs_at(hay@, needle@, at));
        return false;
    }
    let last: usize = hay_chars.len() - needle_chars.len();
    let mut at: usize = 0;
    let mut found = matches_at(&hay_chars, &needle_chars, 0);
    while !found && at < last
        invariant
            at <= last,
            last == hay_chars.len() - needle_chars.len(),
            hay_chars@ == hay@,
            needle_chars@ == needle@,
            found == occurs_at(hay@, needle@, at as int),
            forall|j: int| 0 <= j < at ==> !occurs_at(hay@, needle@, j),
        decreases last - at,
    {
        at += 1;
        found = matches_at(&hay_chars, &needle_chars, at);
    }
    if !found {
        assert(forall|j: int| !occurs_at(hay@, needle@, j));
    }
    found
}

/// What is left of `s` behind its first `n` characters.
pub fn skip(s: &str, n: usize) -> (r: String)
    ensures
        r@ == skip_chars(s@, n as nat),
{
    let len = s.unicode_len();
    if n <= len {
        s.substring_char(n, len).to_owned()
    } else {
        String::new()
    }
}

} // verus!
