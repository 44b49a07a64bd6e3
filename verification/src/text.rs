//! Text forms of integers and byte strings, and the reading of a decimal
//! integer.

use vstd::prelude::*;

verus! {

/// The character that stands for the decimal digit `d`.
pub open spec fn digit_char(d: int) -> char {
    if d == 0 {
        '0'
    } else if d == 1 {
        '1'
    } else if d == 2 {
        '2'
    } else if d == 3 {
        '3'
    } else if d == 4 {
        '4'
    } else if d == 5 {
        '5'
    } else if d == 6 {
        '6'
    } else if d == 7 {
        '7'
    } else if d == 8 {
        '8'
    } else {
        '9'
    }
}

/// Whether `c` is one of the ten ASCII digits.
pub open spec fn is_digit(c: char) -> bool {
    '0' <= c && c <= '9'
}

/// The value of the ASCII digit `c`.
pub open spec fn digit_value(c: char) -> int {
    c as int - '0' as int
}

/// The decimal numeral of `n`, without sign and without leading zeros.
pub open spec fn decimal(n: nat) -> Seq<char>
    decreases n,
{
    if n < 10 {
        seq![digit_char(n as int)]
    } else {
        decimal(n / 10).push(digit_char((n % 10) as int))
    }
}

/// The decimal numeral of `i`, with a leading `-` where `i` is negative.
pub open spec fn signed_decimal(i: int) -> Seq<char> {
    if i < 0 {
        seq!['-'] + decimal((-i) as nat)
    } else {
        decimal(i as nat)
    }
}

/// Appends one character, as `String::push` of std does.
#[verifier::external_body]
pub(crate) fn push_char(s: &mut String, c: char)
    ensures
        final(s)@ == old(s)@.push(c),
{
    s.push(c)
}

fn digit_of(d: u64) -> (c: char)
    requires
        d < 10,
    ensures
        c == digit_char(d as int),
{
    if d == 0 {
        '0'
    } else if d == 1 {
        '1'
    } else if d == 2 {
        '2'
    } else if d == 3 {
        '3'
    } else if d == 4 {
        '4'
    } else if d == 5 {
        '5'
    } else if d == 6 {
        '6'
    } else if d == 7 {
        '7'
    } else if d == 8 {
        '8'
    } else {
        '9'
    }
}

/// Appends the decimal numeral of `n` to `out`.
pub fn push_decimal(out: &mut String, n: u64)
    ensures
        final(out)@ == old(out)@ + decimal(n as nat),
    decreases n,
{
    if n >= 10 {
        push_decimal(out, n / 10);
    }
    push_char(out, digit_of(n % 10));
}

/// The decimal text of a signed integer: `-12`, `0`, `1700000000`.
pub fn integer_text(value: i64) -> (out: String)
    ensures
        out@ == signed_decimal(value as int),
{
    let mut out = String::new();
    if value < 0 {
        push_char(&mut out, '-');
        let magnitude: u64 = ((-(value + 1)) as u64) + 1;
        push_decimal(&mut out, magnitude);
    } else {
        push_decimal(&mut out, value as u64);
    }
    out
}

/// Whether `s` begins with `prefix`.
pub open spec fn has_prefix(s: Seq<char>, prefix: Seq<char>) -> bool {
    s.len() >= prefix.len() && s.take(prefix.len() as int) == prefix
}

/// Whether `s` begins with `prefix`.
pub fn starts_with(s: &str, prefix: &str) -> (out: bool)
    ensures
        out == has_prefix(s@, prefix@),
{
    let n = prefix.unicode_len();
    if s.unicode_len() < n {
        return false;
    }
    let mut i: usize = 0;
    while i < n
        invariant
            i <= n,
            n == prefix@.len(),
            n <= s@.len(),
            s@.take(i as int) == prefix@.take(i as int),
        decreases n - i,
    {
        if s.get_char(i) != prefix.get_char(i) {
            proof {
                assert(s@.take(n as int)[i as int] != prefix@[i as int]);
            }
            return false;
        }
        proof {
            assert(s@.take(i + 1) =~= s@.take(i as int).push(s@[i as int]));
            assert(prefix@.take(i + 1) =~= prefix@.take(i as int).push(prefix@[i as int]));
        }
        i += 1;
    }
    proof {
        assert(prefix@.take(n as int) == prefix@);
    }
    true
}

/// The inside of a bracketed list of bytes: the decimal numerals of the bytes,
/// separated by a comma and a space.
pub open spec fn byte_list_body(bytes: Seq<u8>) -> Seq<char>
    decreases bytes.len(),
{
    if bytes.len() == 0 {
        Seq::<char>::empty()
    } else if bytes.len() == 1 {
        decimal(bytes[0] as nat)
    } else {
        byte_list_body(bytes.drop_last()) + seq![',', ' '] + decimal(bytes.last() as nat)
    }
}

/// The bracketed list of bytes that stands for binary data: `[]`, `[7]`,
/// `[222, 173, 0]`.
pub open spec fn byte_list(bytes: Seq<u8>) -> Seq<char> {
    seq!['['] + byte_list_body(bytes) + seq![']']
}

/// The bracketed list of the bytes of `bytes`, each as a decimal numeral.
pub fn byte_list_text(bytes: &Vec<u8>) -> (out: String)
    ensures
        out@ == byte_list(bytes@),
{
    let mut out = String::new();
    push_char(&mut out, '[');
    let mut i: usize = 0;
    while i < bytes.len()
        invariant
            i <= bytes.len(),
            out@ == seq!['['] + byte_list_body(bytes@.take(i as int)),
        decreases bytes.len() - i,
    {
        if i > 0 {
            push_char(&mut out, ',');
            push_char(&mut out, ' ');
        }
        push_decimal(&mut out, bytes[i] as u64);
        proof {
            let next = bytes@.take(i + 1);
            assert(next.drop_last() == bytes@.take(i as int));
            assert(next.last() == bytes@[i as int]);
            if i > 0 {
                assert(out@ == seq!['['] + (byte_list_body(bytes@.take(i as int)) + seq![',', ' ']
                    + decimal(bytes@[i as int] as nat)));
            } else {
                assert(byte_list_body(bytes@.take(0)) == Seq::<char>::empty());
                assert(out@ == seq!['['] + decimal(bytes@[i as int] as nat));
            }
        }
        i += 1;
    }
    proof {
        assert(bytes@.take(i as int) == bytes@);
    }
    push_char(&mut out, ']');
    out
}

/// Whether every character of `s` is an ASCII digit.
pub open spec fn all_digits(s: Seq<char>) -> bool {
    forall|i: int| 0 <= i < s.len() ==> is_digit(#[trigger] s[i])
}

/// The number that a sequence of digits denotes, most significant digit first.
pub open spec fn digits_value(s: Seq<char>) -> int
    decreases s.len(),
{
    if s.len() == 0 {
        0
    } else {
        digits_value(s.drop_last()) * 10 + digit_value(s.last())
    }
}

/// Whether `s` begins with a sign, `+` or `-`.
pub open spec fn has_sign(s: Seq<char>) -> bool {
    s.len() > 0 && (s[0] == '-' || s[0] == '+')
}

/// The digits of `s`: all of it but a leading sign.
pub open spec fn unsigned_part(s: Seq<char>) -> Seq<char> {
    if has_sign(s) {
        s.skip(1)
    } else {
        s
    }
}

/// The 64-bit signed integer that `s` denotes: an optional sign, then one or
/// more ASCII digits and nothing else, with a value that fits. `None` for any
/// other text.
pub open spec fn parse_integer(s: Seq<char>) -> Option<int> {
    let digits = unsigned_part(s);
    if digits.len() == 0 || !all_digits(digits) {
        None
    } else {
        let value = if s[0] == '-' {
            -digits_value(digits)
        } else {
            digits_value(digits)
        };
        if i64::MIN <= value <= i64::MAX {
            Some(value)
        } else {
            None
        }
    }
}

/// A sequence of digits denotes at least what any of its beginnings denotes.
pub proof fn lemma_digits_value_grows(s: Seq<char>, k: int)
    requires
        all_digits(s),
        0 <= k <= s.len(),
    ensures
        0 <= digits_value(s.take(k)) <= digits_value(s),
    decreases s.len(),
{
    if k == s.len() {
        assert(s.take(k) == s);
        if s.len() > 0 {
            lemma_digits_value_grows(s.drop_last(), k - 1);
            assert(is_digit(s[s.len() - 1]));
        }
    } else {
        lemma_digits_value_grows(s.drop_last(), k);
        assert(s.drop_last().take(k) == s.take(k));
        assert(is_digit(s[s.len() - 1]));
    }
}

/// The decimal numeral of a number consists of digits, begins with one, and
/// denotes the number.
pub proof fn lemma_decimal_denotes(n: nat)
    ensures
        decimal(n).len() > 0,
        all_digits(decimal(n)),
        digits_value(decimal(n)) == n,
    decreases n,
{
    if n < 10 {
        assert(decimal(n).drop_last() =~= Seq::<char>::empty());
        assert(digits_value(decimal(n).drop_last()) == 0);
    } else {
        lemma_decimal_denotes(n / 10);
        assert(decimal(n).drop_last() =~= decimal(n / 10));
        assert forall|i: int| 0 <= i < decimal(n).len() implies is_digit(
            #[trigger] decimal(n)[i],
        ) by {
            if i < decimal(n).len() - 1 {
                assert(decimal(n)[i] == decimal(n / 10)[i]);
            }
        }
    }
}

/// Reading the decimal text of a 64-bit integer gives the integer back.
pub proof fn lemma_integer_text_reads_back(i: int)
    requires
        i64::MIN <= i <= i64::MAX,
    ensures
        parse_integer(signed_decimal(i)) == Some(i),
{
    if i < 0 {
        let n = (-i) as nat;
        lemma_decimal_denotes(n);
        assert(signed_decimal(i).skip(1) =~= decimal(n));
    } else {
        lemma_decimal_denotes(i as nat);
        assert(is_digit(decimal(i as nat)[0]));
    }
}

/// Reads a 64-bit signed decimal integer: an optional `+` or `-`, then digits.
pub fn parse_integer_text(s: &str) -> (out: Option<i64>)
    ensures
        out is Some == parse_integer(s@) is Some,
        out matches Some(v) ==> parse_integer(s@) == Some(v as int),
{
    if !s.is_ascii() {
        proof {
            let j = choose|j: int| 0 <= j < s@.len() && !('\0' <= #[trigger] s@[j] <= '\u{7f}');
            if has_sign(s@) {
                if j > 0 {
                    assert(unsigned_part(s@)[j - 1] == s@[j]);
                }
            }
        }
        return None;
    }
    let n = s.unicode_len();
    if n == 0 {
        return None;
    }
    let first = s.get_ascii(0);
    let negative = first == 45u8;
    let start: usize = if first == 45u8 || first == 43u8 {
        1
    } else {
        0
    };
    assert(has_sign(s@) == (start == 1));
    assert(negative == (s@[0] == '-'));
    if start == n {
        return None;
    }
    let ghost digits = unsigned_part(s@);
    let limit: u64 = 9223372036854775808;
    let mut magnitude: u64 = 0;
    let mut i: usize = start;
    while i < n
        invariant
            s.is_ascii(),
            n == s@.len(),
            start <= i <= n,
            start <= 1,
            digits == s@.skip(start as int),
            digits == unsigned_part(s@),
            negative == (s@[0] == '-'),
            limit == 9223372036854775808,
            magnitude <= limit,
            all_digits(digits.take(i - start)),
            magnitude == digits_value(digits.take(i - start)),
        decreases n - i,
    {
        let b = s.get_ascii(i);
        assert(digits[i - start] == s@[i as int]);
        if b < 48u8 || b > 57u8 {
            assert(!is_digit(digits[i - start]));
            return None;
        }
        let d: u64 = (b - 48u8) as u64;
        proof {
            let next = digits.take(i - start + 1);
            assert(next.drop_last() == digits.take(i - start));
            assert(next.last() == digits[i - start]);
            assert(is_digit(next.last()));
            assert(digit_value(next.last()) == d);
            assert forall|k: int| 0 <= k < next.len() implies is_digit(#[trigger] next[k]) by {
                if k < next.len() - 1 {
                    assert(next[k] == digits.take(i - start)[k]);
                }
            }
            assert(digits_value(next) == magnitude * 10 + d);
        }
        if magnitude > (limit - d) / 10 {
            proof {
                if all_digits(digits) {
                    lemma_digits_value_grows(digits, i - start + 1);
                }
            }
            return None;
        }
        magnitude = magnitude * 10 + d;
        i += 1;
    }
    proof {
        assert(digits.take(i - start) == digits);
    }
    if negative {
        if magnitude == limit {
            Some(i64::MIN)
        } else {
            Some(-(magnitude as i64))
        }
    } else if magnitude == limit {
        None
    } else {
        Some(magnitude as i64)
    }
}

} // verus!
