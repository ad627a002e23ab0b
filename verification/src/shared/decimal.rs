//! Decimal text of integers, in both directions.
//!
//! The native records carry their numeric fields as machine integers and the
//! domain entities carry them as text; this module fixes what that text is.
use vstd::prelude::*;

verus! {

/// The character of the decimal digit `d`, for `0 <= d <= 9`.
pub open spec fn digit_char(d: int) -> char {
    (('0' as int) + d) as char
}

/// The decimal digits of `n`, most significant first, without leading zeros.
pub open spec fn decimal_digits(n: nat) -> Seq<char>
    decreases n,
{
    if n < 10 {
        seq![digit_char(n as int)]
    } else {
        decimal_digits(n / 10).push(digit_char((n % 10) as int))
    }
}

/// The decimal text of `n`: its digits, after a minus sign when it is negative.
pub open spec fn decimal(n: int) -> Seq<char> {
    if n < 0 {
        seq!['-'] + decimal_digits((-n) as nat)
    } else {
        decimal_digits(n as nat)
    }
}

/// Whether `c` is one of the ten ASCII digits.
pub open spec fn is_digit(c: char) -> bool {
    '0' <= c && c <= '9'
}

/// The value of the ASCII digit `c`.
pub open spec fn digit_value(c: char) -> int {
    (c as int) - ('0' as int)
}

/// Whether every character of `s` is an ASCII digit.
pub open spec fn all_digits(s: Seq<char>) -> bool {
    forall|i: int| 0 <= i < s.len() ==> is_digit(#[trigger] s[i])
}

/// The number that the digits `s` write in base ten; zero for no digits.
pub open spec fn digits_value(s: Seq<char>) -> nat
    decreases s.len(),
{
    if s.len() == 0 {
        0
    } else {
        (digits_value(s.drop_last()) * 10 + digit_value(s.last())) as nat
    }
}

/// Whether `s` starts with a plus or a minus sign.
pub open spec fn has_sign(s: Seq<char>) -> bool {
    s.len() > 0 && (s[0] == '+' || s[0] == '-')
}

/// The integer that `s` writes: an optional sign followed by one or more
/// ASCII digits. `None` for any other text.
pub open spec fn signed_decimal(s: Seq<char>) -> Option<int> {
    let body = if has_sign(s) { s.drop_first() } else { s };
    if body.len() == 0 || !all_digits(body) {
        None
    } else if s[0] == '-' {
        Some(-(digits_value(body) as int))
    } else {
        Some(digits_value(body) as int)
    }
}

/// The 64-bit signed integer that `s` writes, `None` when `s` writes no
/// integer or one that does not fit.
pub open spec fn parsed_i64(s: Seq<char>) -> Option<i64> {
    match signed_decimal(s) {
        Some(v) => if i64::MIN <= v && v <= i64::MAX { Some(v as i64) } else { None },
        None => None,
    }
}

/// A number's digits are never empty, and each is an ASCII digit.
pub proof fn lemma_decimal_digits_shape(n: nat)
    ensures
        decimal_digits(n).len() >= 1,
        all_digits(decimal_digits(n)),
    decreases n,
{
    if n >= 10 {
        lemma_decimal_digits_shape(n / 10);
        let whole = decimal_digits(n);
        assert forall|i: int| 0 <= i < whole.len() implies is_digit(#[trigger] whole[i]) by {
        }
    }
}

/// Reading back the digits of a number gives the number.
pub proof fn lemma_digits_value_of_decimal_digits(n: nat)
    ensures
        digits_value(decimal_digits(n)) == n,
    decreases n,
{
    if n < 10 {
        let s = decimal_digits(n);
        assert(digits_value(s.drop_last()) == 0);
    } else {
        lemma_digits_value_of_decimal_digits(n / 10);
        let s = decimal_digits(n);
        assert(s.drop_last() =~= decimal_digits(n / 10));
    }
}

/// The value of a prefix of digits never exceeds the value of the whole.
pub proof fn lemma_digits_value_grows(s: Seq<char>, k: int)
    requires
        0 <= k <= s.len(),
        all_digits(s),
    ensures
        digits_value(s.take(k)) <= digits_value(s),
    decreases s.len() - k,
{
    if k == s.len() {
        assert(s.take(k) =~= s);
    } else {
        let rest = s.drop_last();
        assert forall|i: int| 0 <= i < rest.len() implies is_digit(#[trigger] rest[i]) by {
        }
        lemma_digits_value_grows(rest, k);
        assert(rest.take(k) =~= s.take(k));
    }
}

/// Two numbers with the same decimal text are the same number.
pub proof fn lemma_decimal_injective(a: int, b: int)
    requires
        decimal(a) == decimal(b),
    ensures
        a == b,
{
    let (na, nb) = (if a < 0 { (-a) as nat } else { a as nat }, if b < 0 { (-b) as nat } else {
        b as nat
    });
    lemma_decimal_digits_shape(na);
    lemma_decimal_digits_shape(nb);
    lemma_digits_value_of_decimal_digits(na);
    lemma_digits_value_of_decimal_digits(nb);
    if a < 0 && b < 0 {
        assert(decimal(a).subrange(1, decimal(a).len() as int) =~= decimal_digits(na));
        assert(decimal(b).subrange(1, decimal(b).len() as int) =~= decimal_digits(nb));
    } else if a < 0 {
        assert(is_digit(decimal_digits(nb)[0]));
    } else if b < 0 {
        assert(is_digit(decimal_digits(na)[0]));
    }
}

/// Reading the decimal text of a 64-bit signed integer gives the integer
/// back.
pub proof fn lemma_parse_of_decimal(v: i64)
    ensures
        parsed_i64(decimal(v as int)) == Some(v),
{
    let text = decimal(v as int);
    let magnitude = if v < 0 { (-(v as int)) as nat } else { v as nat };
    let digits = decimal_digits(magnitude);
    lemma_decimal_digits_shape(magnitude);
    lemma_digits_value_of_decimal_digits(magnitude);
    if v < 0 {
        assert(text.drop_first() =~= digits);
    }
}

/// `String::push` of the standard library: the character is appended to the
/// end of the string, and nothing else of it changes.
pub assume_specification[ String::push ](s: &mut String, ch: char)
    ensures
        final(s)@ == old(s)@.push(ch),
;

/// The ASCII digit of `d`.
fn digit_of(d: u8) -> (c: char)
    requires
        d < 10,
    ensures
        c == digit_char(d as int),
        is_digit(c),
{
    (48u8 + d) as char
}

/// The decimal text of an unsigned 64-bit integer, appended to `out`.
fn push_decimal_digits(out: &mut String, v: u64)
    ensures
        final(out)@ == old(out)@ + decimal_digits(v as nat),
{
    let mut reversed: Vec<char> = Vec::new();
    let mut rest: u64 = v / 10;
    reversed.push(digit_of((v % 10) as u8));
    while rest > 0
        invariant
            reversed@.len() >= 1,
            rest > 0 ==> decimal_digits(v as nat) == decimal_digits(rest as nat)
                + reversed@.reverse(),
            rest == 0 ==> decimal_digits(v as nat) == reversed@.reverse(),
        decreases rest,
    {
        let ghost before = reversed@;
        let c = digit_of((rest % 10) as u8);
        reversed.push(c);
        rest = rest / 10;
        proof {
            if rest > 0 {
                assert(decimal_digits(rest as nat).push(c) + before.reverse() =~= decimal_digits(
                    rest as nat,
                ) + reversed@.reverse());
            }
        }
    }
    let mut i: usize = reversed.len();
    while i > 0
        invariant
            i <= reversed@.len(),
            out@ == old(out)@ + reversed@.reverse().take(reversed@.len() - i),
        decreases i,
    {
        i = i - 1;
        out.push(reversed[i]);
    }
}

/// The decimal text of an unsigned 64-bit integer.
pub fn u64_text(v: u64) -> (text: String)
    ensures
        text@ == decimal(v as int),
{
    let mut text = String::new();
    push_decimal_digits(&mut text, v);
    text
}

/// The decimal text of a signed 64-bit integer.
pub fn i64_text(v: i64) -> (text: String)
    ensures
        text@ == decimal(v as int),
{
    let mut text = String::new();
    if v < 0 {
        text.push('-');
        let magnitude: u64 = ((-(v + 1)) as u64) + 1;
        push_decimal_digits(&mut text, magnitude);
    } else {
        push_decimal_digits(&mut text, v as u64);
    }
    text
}

/// The decimal text of an unsigned 32-bit integer.
pub fn u32_text(v: u32) -> (text: String)
    ensures
        text@ == decimal(v as int),
{
    u64_text(v as u64)
}

/// The decimal text of a signed 32-bit integer.
pub fn i32_text(v: i32) -> (text: String)
    ensures
        text@ == decimal(v as int),
{
    i64_text(v as i64)
}

/// Reads the characters of `chars` from `start` up to `end` as a signed decimal
/// integer of 64 bits.
pub fn parse_i64(chars: &Vec<char>, start: usize, end: usize) -> (value: Option<i64>)
    requires
        start <= end <= chars@.len(),
    ensures
        value == parsed_i64(chars@.subrange(start as int, end as int)),
{
    let ghost text = chars@.subrange(start as int, end as int);
    if start == end {
        return None;
    }
    let first = chars[start];
    let negative = first == '-';
    let signed = negative || first == '+';
    let from: usize = if signed { start + 1 } else { start };
    let ghost body = if has_sign(text) { text.drop_first() } else { text };
    if from == end {
        return None;
    }
    let limit: u64 = if negative { 9223372036854775808u64 } else { 9223372036854775807u64 };
    let mut acc: u64 = 0;
    let mut i: usize = from;
    while i < end
        invariant
            start <= from <= i <= end,
            start < end <= chars@.len(),
            text == chars@.subrange(start as int, end as int),
            body == (if has_sign(text) { text.drop_first() } else { text }),
            body == chars@.subrange(from as int, end as int),
            negative == (text[0] == '-'),
            limit == (if negative { 9223372036854775808u64 } else { 9223372036854775807u64 }),
            all_digits(body.take(i - from)),
            acc == digits_value(body.take(i - from)),
            acc <= limit,
        decreases end - i,
    {
        let c = chars[i];
        let ghost seen = body.take(i - from);
        let ghost next = body.take(i - from + 1);
        proof {
            assert(next.drop_last() =~= seen);
        }
        if c < '0' || c > '9' {
            assert(!is_digit(body[i - from]));
            return None;
        }
        let d: u64 = (c as u32 - 48) as u64;
        if acc > (limit - d) / 10 {
            proof {
                if all_digits(body) {
                    lemma_digits_value_grows(body, i - from + 1);
                }
            }
            return None;
        }
        acc = acc * 10 + d;
        i = i + 1;
        proof {
            assert forall|j: int| 0 <= j < next.len() implies is_digit(#[trigger] next[j]) by {
            }
        }
    }
    assert(body.take(end - from) =~= body);
    if negative {
        if acc == 9223372036854775808u64 {
            Some(i64::MIN)
        } else {
            Some(-(acc as i64))
        }
    } else {
        Some(acc as i64)
    }
}

} // verus!
