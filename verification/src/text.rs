//! Text on its way in: characters, blanks and decimal numbers.
//!
//! Numbers are written as Rust's integer types read them: an optional `+`,
//! then one or more of the digits `0` to `9`, and nothing else.

use vstd::prelude::*;
use vstd::std_specs::iter::IteratorSpec;

verus! {

/// `c` is white space as Unicode defines it.
pub open spec fn is_blank(c: char) -> bool {
    let code = c as u32;
    ||| 0x09 <= code <= 0x0D
    ||| code == 0x20
    ||| code == 0x85
    ||| code == 0xA0
    ||| code == 0x1680
    ||| 0x2000 <= code <= 0x200A
    ||| code == 0x2028
    ||| code == 0x2029
    ||| code == 0x202F
    ||| code == 0x205F
    ||| code == 0x3000
}

/// `c` is one of the digits `0` to `9`.
pub open spec fn is_digit(c: char) -> bool {
    0x30 <= c as u32 <= 0x39
}

/// The number that the digit `c` stands for.
pub open spec fn digit_value(c: char) -> int {
    c as u32 - 0x30
}

/// Every character of `s` is a digit.
pub open spec fn all_digits(s: Seq<char>) -> bool {
    forall|i: int| 0 <= i < s.len() ==> is_digit(#[trigger] s[i])
}

/// The number that the digits `s` write in base ten; zero for no digits.
pub open spec fn decimal_value(s: Seq<char>) -> int
    decreases s.len(),
{
    if s.len() == 0 {
        0
    } else {
        decimal_value(s.drop_last()) * 10 + digit_value(s.last())
    }
}

/// `s` without the `+` that it may begin with.
pub open spec fn unsigned_digits(s: Seq<char>) -> Seq<char> {
    if s.len() > 0 && s[0] == '+' {
        s.drop_first()
    } else {
        s
    }
}

/// The number that `s` writes, if `s` is a number: an optional `+` and then
/// at least one digit, with nothing before, between or after.
pub open spec fn unsigned_decimal(s: Seq<char>) -> Option<int> {
    let digits = unsigned_digits(s);
    if digits.len() > 0 && all_digits(digits) {
        Some(decimal_value(digits))
    } else {
        None
    }
}

/// The number that `s` writes, if it is one that fits 64 bits.
pub open spec fn decimal_u64(s: Seq<char>) -> Option<u64> {
    match unsigned_decimal(s) {
        Some(value) => if value <= u64::MAX {
            Some(value as u64)
        } else {
            None
        },
        None => None,
    }
}

/// The number that `s` writes, if it is one that fits 32 bits.
pub open spec fn decimal_u32(s: Seq<char>) -> Option<u32> {
    match unsigned_decimal(s) {
        Some(value) => if value <= u32::MAX {
            Some(value as u32)
        } else {
            None
        },
        None => None,
    }
}

/// How many blanks `s` begins with.
pub open spec fn leading_blanks(s: Seq<char>) -> nat
    decreases s.len(),
{
    if s.len() > 0 && is_blank(s[0]) {
        1 + leading_blanks(s.drop_first())
    } else {
        0
    }
}

/// How many blanks `s` ends with.
pub open spec fn trailing_blanks(s: Seq<char>) -> nat
    decreases s.len(),
{
    if s.len() > 0 && is_blank(s.last()) {
        1 + trailing_blanks(s.drop_last())
    } else {
        0
    }
}

/// `s` without the blanks at its ends.
pub open spec fn trimmed(s: Seq<char>) -> Seq<char> {
    if leading_blanks(s) == s.len() {
        Seq::empty()
    } else {
        s.subrange(leading_blanks(s) as int, s.len() - trailing_blanks(s))
    }
}

/// Digits write a number that is not negative.
pub proof fn lemma_decimal_value_is_not_negative(s: Seq<char>)
    requires
        all_digits(s),
    ensures
        0 <= decimal_value(s),
    decreases s.len(),
{
    if s.len() > 0 {
        lemma_decimal_value_is_not_negative(s.drop_last());
    }
}

/// A number only grows as digits are added to it: the digits read so far
/// never write more than the whole.
pub proof fn lemma_decimal_value_grows(s: Seq<char>, n: int)
    requires
        all_digits(s),
        0 <= n <= s.len(),
    ensures
        0 <= decimal_value(s.take(n)) <= decimal_value(s),
    decreases s.len() - n,
{
    lemma_decimal_value_is_not_negative(s.take(n));
    if n == s.len() {
        assert(s.take(n) == s);
    } else {
        lemma_decimal_value_grows(s, n + 1);
        assert(s.take(n + 1).drop_last() == s.take(n));
    }
}

/// The blanks that `s` begins with are blanks, and the character after them
/// is none.
proof fn lemma_leading_blanks(s: Seq<char>)
    ensures
        leading_blanks(s) <= s.len(),
        forall|i: int| 0 <= i < leading_blanks(s) ==> is_blank(#[trigger] s[i]),
        leading_blanks(s) < s.len() ==> !is_blank(s[leading_blanks(s) as int]),
    decreases s.len(),
{
    if s.len() > 0 && is_blank(s[0]) {
        let rest = s.drop_first();
        lemma_leading_blanks(rest);
        assert forall|i: int| 0 <= i < leading_blanks(s) implies is_blank(#[trigger] s[i]) by {
            if i > 0 {
                assert(s[i] == rest[i - 1]);
            }
        }
    }
}

/// The blanks that `s` ends with are blanks, and the character before them
/// is none.
proof fn lemma_trailing_blanks(s: Seq<char>)
    ensures
        trailing_blanks(s) <= s.len(),
        forall|i: int| s.len() - trailing_blanks(s) <= i < s.len() ==> is_blank(#[trigger] s[i]),
        trailing_blanks(s) < s.len() ==> !is_blank(s[s.len() - trailing_blanks(s) - 1]),
    decreases s.len(),
{
    if s.len() > 0 && is_blank(s.last()) {
        let rest = s.drop_last();
        lemma_trailing_blanks(rest);
        assert forall|i: int| s.len() - trailing_blanks(s) <= i < s.len() implies is_blank(
            #[trigger] s[i],
        ) by {
            if i < s.len() - 1 {
                assert(s[i] == rest[i]);
            }
        }
    }
}

/// Trimming takes the blanks off both ends and nothing else: `s` is made of
/// blanks, then `trimmed(s)`, then blanks, and what is left neither begins
/// nor ends with a blank.
pub proof fn lemma_trimmed(s: Seq<char>)
    ensures
        leading_blanks(s) + trimmed(s).len() <= s.len(),
        trimmed(s) == s.subrange(
            leading_blanks(s) as int,
            (leading_blanks(s) + trimmed(s).len()) as int,
        ),
        forall|i: int| 0 <= i < leading_blanks(s) ==> is_blank(#[trigger] s[i]),
        forall|i: int|
            leading_blanks(s) + trimmed(s).len() <= i < s.len() ==> is_blank(#[trigger] s[i]),
        trimmed(s).len() > 0 ==> !is_blank(trimmed(s)[0]) && !is_blank(trimmed(s).last()),
{
    lemma_leading_blanks(s);
    lemma_trailing_blanks(s);
    if leading_blanks(s) < s.len() {
        // The first character that is no blank stands before the blanks at the end.
        assert(leading_blanks(s) < s.len() - trailing_blanks(s));
    }
}

/// Counting blanks from the front stops at the first character that is none.
proof fn lemma_leading_blanks_found(s: Seq<char>, n: int)
    requires
        0 <= n <= s.len(),
        forall|i: int| 0 <= i < n ==> is_blank(#[trigger] s[i]),
        n < s.len() ==> !is_blank(s[n]),
    ensures
        leading_blanks(s) == n,
    decreases s.len(),
{
    if n > 0 {
        lemma_leading_blanks_found(s.drop_first(), n - 1);
    }
}

/// Counting blanks from the back stops at the last character that is none.
proof fn lemma_trailing_blanks_found(s: Seq<char>, n: int)
    requires
        0 <= n <= s.len(),
        forall|i: int| s.len() - n <= i < s.len() ==> is_blank(#[trigger] s[i]),
        n < s.len() ==> !is_blank(s[s.len() - n - 1]),
    ensures
        trailing_blanks(s) == n,
    decreases s.len(),
{
    if n > 0 {
        lemma_trailing_blanks_found(s.drop_last(), n - 1);
    }
}

/// The characters of `s`, in order.
pub fn chars_of(s: &str) -> (chars: Vec<char>)
    ensures
        chars@ == s@,
{
    let mut chars: Vec<char> = Vec::new();
    let mut rest = s.chars();
    proof {
        vstd::string::axiom_spec_iter(s);
    }
    loop
        invariant
            chars@ + rest.remaining() == s@,
            rest.decrease() is Some,
        decreases rest.decrease()->0,
    {
        let ghost before = rest;
        let next = rest.next();
        proof {
            vstd::string::next_postcondition(&before, &rest, next);
        }
        match next {
            Some(c) => chars.push(c),
            None => {
                return chars;
            },
        }
    }
}

/// Whether `c` is white space.
pub fn char_is_blank(c: char) -> (blank: bool)
    ensures
        blank == is_blank(c),
{
    let code: u32 = c as u32;
    (0x09 <= code && code <= 0x0D) || code == 0x20 || code == 0x85 || code == 0xA0 || code
        == 0x1680 || (0x2000 <= code && code <= 0x200A) || code == 0x2028 || code == 0x2029
        || code == 0x202F || code == 0x205F || code == 0x3000
}

/// The bounds of `chars` without the blanks at its ends: `chars` from
/// `bounds.0` up to `bounds.1` is `chars` trimmed.
pub fn trim_bounds(chars: &Vec<char>) -> (bounds: (usize, usize))
    ensures
        bounds.0 <= bounds.1 <= chars@.len(),
        chars@.subrange(bounds.0 as int, bounds.1 as int) == trimmed(chars@),
{
    let mut start: usize = 0;
    while start < chars.len() && char_is_blank(chars[start])
        invariant
            start <= chars@.len(),
            forall|i: int| 0 <= i < start ==> is_blank(#[trigger] chars@[i]),
        decreases chars@.len() - start,
    {
        start = start + 1;
    }
    proof {
        lemma_leading_blanks_found(chars@, start as int);
    }
    if start == chars.len() {
        return (start, start);
    }
    let mut end: usize = chars.len();
    while end > start + 1 && char_is_blank(chars[end - 1])
        invariant
            start < end <= chars@.len(),
            !is_blank(chars@[start as int]),
            forall|i: int| end <= i < chars@.len() ==> is_blank(#[trigger] chars@[i]),
        decreases end,
    {
        end = end - 1;
    }
    proof {
        lemma_trailing_blanks_found(chars@, chars@.len() - end);
    }
    (start, end)
}

/// The number that the characters of `chars` from `from` up to `to` write, if
/// they write one that fits 64 bits.
pub fn parse_decimal(chars: &Vec<char>, from: usize, to: usize) -> (number: Option<u64>)
    requires
        from <= to <= chars@.len(),
    ensures
        number == decimal_u64(chars@.subrange(from as int, to as int)),
{
    let ghost s = chars@.subrange(from as int, to as int);
    let mut i: usize = from;
    if i < to && chars[i] == '+' {
        i = i + 1;
    }
    let first: usize = i;
    let ghost digits = unsigned_digits(s);
    assert(digits == chars@.subrange(first as int, to as int));
    if first == to {
        return None;
    }
    let mut value: u64 = 0;
    while i < to
        invariant
            first <= i <= to <= chars@.len(),
            first < to,
            digits == chars@.subrange(first as int, to as int),
            digits == unsigned_digits(chars@.subrange(from as int, to as int)),
            all_digits(digits.take(i - first)),
            value == decimal_value(digits.take(i - first)),
        decreases to - i,
    {
        let code: u32 = chars[i] as u32;
        let ghost read = digits.take(i - first);
        let ghost more = digits.take(i - first + 1);
        assert(more.drop_last() == read);
        if code < 0x30 || code > 0x39 {
            assert(!is_digit(digits[i - first]));
            return None;
        }
        assert(all_digits(more));
        let digit: u64 = (code - 0x30) as u64;
        let next: Option<u64> = match value.checked_mul(10) {
            Some(tens) => tens.checked_add(digit),
            None => None,
        };
        match next {
            Some(sum) => {
                value = sum;
            },
            None => {
                proof {
                    // Whatever digits follow, the number stays too large.
                    if all_digits(digits) {
                        lemma_decimal_value_grows(digits, i - first + 1);
                    }
                }
                return None;
            },
        }
        i = i + 1;
    }
    assert(digits.take(to - first) == digits);
    Some(value)
}

/// The number that `s` writes, if it writes one that fits 64 bits.
pub fn parse_u64(s: &str) -> (number: Option<u64>)
    ensures
        number == decimal_u64(s@),
{
    let chars = chars_of(s);
    assert(chars@.subrange(0, chars@.len() as int) == chars@);
    parse_decimal(&chars, 0, chars.len())
}

/// The number that `s` writes, if it writes one that fits 32 bits.
pub fn parse_u32(s: &str) -> (number: Option<u32>)
    ensures
        number == decimal_u32(s@),
{
    proof {
        if all_digits(unsigned_digits(s@)) {
            lemma_decimal_value_is_not_negative(unsigned_digits(s@));
        }
    }
    match parse_u64(s) {
        Some(value) => if value <= u32::MAX as u64 {
            Some(value as u32)
        } else {
            None
        },
        None => None,
    }
}

} // verus!
