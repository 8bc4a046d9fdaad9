//! Recognising decimal numbers.
use vstd::prelude::*;
use vstd::string::StrSliceExecFns;

verus! {

pub open spec fn is_digit(c: char) -> bool {
    '0' <= c && c <= '9'
}

/// The number that a row of digits stands for.
pub open spec fn digits_value(digits: Seq<char>) -> int
    decreases digits.len(),
{
    if digits.len() == 0 {
        0
    } else {
        digits_value(digits.drop_last()) * 10 + (digits.last() as int - '0' as int)
    }
}

pub open spec fn all_digits(text: Seq<char>) -> bool {
    forall|i: int| 0 <= i < text.len() ==> is_digit(#[trigger] text[i])
}

/// The text without the plus sign that it may start with.
pub open spec fn without_plus(text: Seq<char>) -> Seq<char> {
    if text.len() > 0 && text[0] == '+' {
        text.skip(1)
    } else {
        text
    }
}

/// Whether the text is a number of 64 bits: an optional plus sign followed by one or more decimal
/// digits, whose value fits.
pub open spec fn is_u64_text(text: Seq<char>) -> bool {
    let digits = without_plus(text);
    &&& digits.len() > 0
    &&& all_digits(digits)
    &&& digits_value(digits) <= u64::MAX
}

/// A longer row of digits does not stand for a smaller number.
proof fn lemma_digits_value_grows(digits: Seq<char>, n: int)
    requires
        0 <= n <= digits.len(),
        all_digits(digits),
    ensures
        0 <= digits_value(digits.take(n)) <= digits_value(digits),
    decreases digits.len(),
{
    if digits.len() > 0 {
        assert(is_digit(digits.last()));
        let rest = digits.drop_last();
        assert forall|i: int| 0 <= i < rest.len() implies is_digit(#[trigger] rest[i]) by {
            assert(is_digit(digits[i]));
        }
        if n == digits.len() {
            assert(digits.take(n) =~= digits);
            lemma_digits_value_grows(rest, n - 1);
        } else {
            lemma_digits_value_grows(rest, n);
            assert(rest.take(n) =~= digits.take(n));
        }
    } else {
        assert(digits.take(n) =~= digits);
    }
}

/// Whether the text is a number of 64 bits, as `str::parse` reads one.
pub fn parses_as_u64(text: &str) -> (r: bool)
    ensures
        r == is_u64_text(text@),
{
    let len: usize = text.unicode_len();
    let start: usize = if len > 0 && text.get_char(0) == '+' {
        1
    } else {
        0
    };
    let ghost digits = without_plus(text@);
    assert(digits =~= text@.skip(start as int));
    if start == len {
        return false;
    }
    let mut value: u64 = 0;
    let mut i: usize = start;
    assert(digits.take(0) =~= Seq::<char>::empty());
    while i < len
        invariant
            len == text@.len(),
            start <= i <= len,
            digits == text@.skip(start as int),
            digits == without_plus(text@),
            all_digits(digits.take(i - start)),
            value == digits_value(digits.take(i - start)),
        decreases len - i,
    {
        let c = text.get_char(i);
        let ghost n = i - start;
        assert(c == digits[n]);
        if c < '0' || c > '9' {
            assert(!is_digit(digits[n]));
            return false;
        }
        let ghost next = digits.take(n + 1);
        assert(next.drop_last() =~= digits.take(n));
        assert(next.last() == c);
        assert(all_digits(next)) by {
            assert forall|k: int| 0 <= k < next.len() implies is_digit(#[trigger] next[k]) by {
                if k < n {
                    assert(is_digit(digits.take(n)[k]));
                }
            }
        }
        let digit: u64 = (c as u32 - '0' as u32) as u64;
        assert(digits_value(next) == value * 10 + digit);
        if value > (u64::MAX - digit) / 10 {
            assert(digits_value(next) > u64::MAX);
            proof {
                if all_digits(digits) {
                    lemma_digits_value_grows(digits, n + 1);
                }
            }
            return false;
        }
        value = value * 10 + digit;
        i = i + 1;
    }
    assert(digits.take(i - start) =~= digits);
    true
}

} // verus!
