//! Decimal text of 64-bit signed integers: reading it and writing it.

use vstd::prelude::*;
use vstd::string::*;

verus! {

/// Why a text is not the decimal form of an `i64`.
#[derive(Clone, Copy, Debug, PartialEq, Eq, Structural)]
pub enum DecimalError {
    /// The text has no character at all.
    Empty,
    /// A character is not a decimal digit, or a sign stands alone.
    InvalidDigit,
    /// The number is above `i64::MAX`.
    PosOverflow,
    /// The number is below `i64::MIN`.
    NegOverflow,
}

/// Whether a character is one of the ten decimal digits.
pub open spec fn is_digit(c: char) -> bool {
    '0' <= c && c <= '9'
}

/// The number that a decimal digit stands for.
pub open spec fn digit_value(c: char) -> int {
    c as u32 - '0' as u32
}

/// The digits read from left to right, each step taking the number so far
/// times ten plus the digit, or minus the digit under a minus sign. Reading
/// stops at the first character that is not a digit, or at the first step
/// that leaves the range of `i64`; a character that is no digit is reported
/// before an overflow at the same place.
pub open spec fn read_digits(digits: Seq<char>, negative: bool) -> Result<int, DecimalError>
    decreases digits.len(),
{
    if digits.len() == 0 {
        Ok(0)
    } else {
        match read_digits(digits.drop_last(), negative) {
            Err(e) => Err(e),
            Ok(before) => {
                let c = digits.last();
                let v = if negative {
                    10 * before - digit_value(c)
                } else {
                    10 * before + digit_value(c)
                };
                if !is_digit(c) {
                    Err(DecimalError::InvalidDigit)
                } else if v > i64::MAX {
                    Err(DecimalError::PosOverflow)
                } else if v < i64::MIN {
                    Err(DecimalError::NegOverflow)
                } else {
                    Ok(v)
                }
            },
        }
    }
}

/// The integer that a text denotes: an optional `+` or `-`, then one or more
/// decimal digits, nothing else, and a value within `i64`.
pub open spec fn decimal_value(text: Seq<char>) -> Result<int, DecimalError> {
    if text.len() == 0 {
        Err(DecimalError::Empty)
    } else if text[0] == '+' || text[0] == '-' {
        if text.len() == 1 {
            Err(DecimalError::InvalidDigit)
        } else {
            read_digits(text.drop_first(), text[0] == '-')
        }
    } else {
        read_digits(text, false)
    }
}

/// Once reading has failed on a prefix, it fails in the same way on the whole.
pub proof fn lemma_read_digits_failure_stays(digits: Seq<char>, k: int, negative: bool)
    requires
        0 <= k <= digits.len(),
        read_digits(digits.take(k), negative) is Err,
    ensures
        read_digits(digits, negative) == read_digits(digits.take(k), negative),
    decreases digits.len(),
{
    if k == digits.len() {
        assert(digits.take(k) =~= digits);
    } else {
        assert(digits.drop_last().take(k) =~= digits.take(k));
        lemma_read_digits_failure_stays(digits.drop_last(), k, negative);
    }
}

/// Reads an `i64` from its decimal text.
pub fn parse_i64(text: &str) -> (r: Result<i64, DecimalError>)
    ensures
        match r {
            Ok(n) => decimal_value(text@) == Ok::<int, DecimalError>(n as int),
            Err(e) => decimal_value(text@) == Err::<int, DecimalError>(e),
        },
{
    let mut first = true;
    let mut signed = false;
    let mut negative = false;
    let mut any_digit = false;
    let mut acc: i64 = 0;
    for c in it: text.chars()
        invariant
            it.seq() == text@,
            first <==> it.index() == 0,
            first ==> !signed && !negative,
            !first ==> (signed <==> (text@[0] == '+' || text@[0] == '-')),
            !first ==> (negative <==> text@[0] == '-'),
            any_digit <==> it.index() > (if signed { 1int } else { 0int }),
            negative ==> acc <= 0,
            !negative ==> acc >= 0,
            read_digits(
                text@.subrange(if signed { 1int } else { 0int }, it.index() as int),
                negative,
            ) == Ok::<int, DecimalError>(acc as int),
    {
        let ghost at = it.index() as int;
        let ghost start = if signed { 1int } else { 0int };
        if first && (c == '+' || c == '-') {
            signed = true;
            negative = c == '-';
            assert(text@.subrange(1, at + 1) =~= Seq::<char>::empty());
        } else {
            let ghost rest = text@.subrange(start, text@.len() as int);
            let ghost seen = text@.subrange(start, at + 1);
            proof {
                assert(seen.drop_last() =~= text@.subrange(start, at));
                assert(seen.last() == c);
                assert(rest.take(at + 1 - start) =~= seen);
                if signed {
                    assert(rest =~= text@.drop_first());
                } else {
                    assert(rest =~= text@);
                }
            }
            if !('0' <= c && c <= '9') {
                proof {
                    lemma_read_digits_failure_stays(rest, at + 1 - start, negative);
                }
                return Err(DecimalError::InvalidDigit);
            }
            let d: i64 = (c as u32 - '0' as u32) as i64;
            let overflow = if negative {
                DecimalError::NegOverflow
            } else {
                DecimalError::PosOverflow
            };
            let scaled = match acc.checked_mul(10) {
                Some(v) => v,
                None => {
                    proof {
                        lemma_read_digits_failure_stays(rest, at + 1 - start, negative);
                    }
                    return Err(overflow);
                },
            };
            let next = if negative {
                scaled.checked_sub(d)
            } else {
                scaled.checked_add(d)
            };
            acc = match next {
                Some(v) => v,
                None => {
                    proof {
                        lemma_read_digits_failure_stays(rest, at + 1 - start, negative);
                    }
                    return Err(overflow);
                },
            };
            any_digit = true;
        }
        first = false;
    }
    if first {
        return Err(DecimalError::Empty);
    }
    if !any_digit {
        return Err(DecimalError::InvalidDigit);
    }
    proof {
        if signed {
            assert(text@.subrange(1, text@.len() as int) =~= text@.drop_first());
        } else {
            assert(text@.subrange(0, text@.len() as int) =~= text@);
        }
    }
    Ok(acc)
}

/// The decimal digit that stands for a number from 0 to 9.
pub open spec fn digit_char(d: int) -> char {
    (d + 48) as u8 as char
}

/// The decimal digits of a natural number, without leading zeros.
pub open spec fn digits_text(n: nat) -> Seq<char>
    decreases n,
{
    if n < 10 {
        seq![digit_char(n as int)]
    } else {
        digits_text(n / 10).push(digit_char((n % 10) as int))
    }
}

/// The decimal text of an integer: its digits, after a `-` if it is negative.
pub open spec fn decimal_text(n: int) -> Seq<char> {
    if n < 0 {
        seq!['-'] + digits_text((-n) as nat)
    } else {
        digits_text(n as nat)
    }
}

/// The digits of a number begin with a digit.
pub proof fn lemma_digits_text_starts_with_digit(n: nat)
    ensures
        digits_text(n).len() >= 1,
        is_digit(digits_text(n)[0]),
    decreases n,
{
    if n >= 10 {
        lemma_digits_text_starts_with_digit(n / 10);
    }
}

/// The decimal text of an integer, read back: the integer itself where it
/// is an `i64`, and an overflow on its side of the range where it is not.
pub open spec fn checked_i64(n: int) -> Result<int, DecimalError> {
    if n > i64::MAX {
        Err(DecimalError::PosOverflow)
    } else if n < i64::MIN {
        Err(DecimalError::NegOverflow)
    } else {
        Ok(n)
    }
}

/// Reading the digits of a number gives the number back, or its negative
/// under a minus sign, as long as that is an `i64`, and an overflow otherwise.
pub proof fn lemma_read_digits_of_digits_text(n: nat, negative: bool)
    ensures
        read_digits(digits_text(n), negative) == checked_i64(
            if negative {
                -(n as int)
            } else {
                n as int
            },
        ),
    decreases n,
{
    let text = digits_text(n);
    let last = digit_char((n % 10) as int);
    assert(text.last() == last);
    assert(is_digit(last) && digit_value(last) == n % 10);
    if n < 10 {
        assert(text.drop_last() =~= Seq::<char>::empty());
        assert(read_digits(text.drop_last(), negative) == Ok::<int, DecimalError>(0));
    } else {
        assert(text.drop_last() =~= digits_text(n / 10));
        lemma_read_digits_of_digits_text(n / 10, negative);
    }
}

/// Reading the decimal text of an integer gives that integer where it is an
/// `i64`, and an overflow where it is not.
pub proof fn lemma_decimal_value_of_decimal_text(n: int)
    ensures
        decimal_value(decimal_text(n)) == checked_i64(n),
{
    if n < 0 {
        let digits = digits_text((-n) as nat);
        lemma_digits_text_starts_with_digit((-n) as nat);
        lemma_read_digits_of_digits_text((-n) as nat, true);
        assert(decimal_text(n).drop_first() =~= digits);
    } else {
        lemma_digits_text_starts_with_digit(n as nat);
        lemma_read_digits_of_digits_text(n as nat, false);
    }
}

/// The one-character string of a digit.
fn digit_str(d: u64) -> (r: &'static str)
    requires
        d < 10,
    ensures
        r@ == seq![digit_char(d as int)],
{
    proof {
        reveal_strlit("0");
        reveal_strlit("1");
        reveal_strlit("2");
        reveal_strlit("3");
        reveal_strlit("4");
        reveal_strlit("5");
        reveal_strlit("6");
        reveal_strlit("7");
        reveal_strlit("8");
        reveal_strlit("9");
    }
    if d == 0 {
        "0"
    } else if d == 1 {
        "1"
    } else if d == 2 {
        "2"
    } else if d == 3 {
        "3"
    } else if d == 4 {
        "4"
    } else if d == 5 {
        "5"
    } else if d == 6 {
        "6"
    } else if d == 7 {
        "7"
    } else if d == 8 {
        "8"
    } else {
        "9"
    }
}

/// Appends the digits of a natural number.
fn push_digits(out: &mut String, n: u64)
    ensures
        final(out)@ == old(out)@ + digits_text(n as nat),
    decreases n,
{
    if n >= 10 {
        push_digits(out, n / 10);
    }
    out.append(digit_str(n % 10));
    assert(out@ =~= old(out)@ + digits_text(n as nat));
}

/// Appends the decimal text of an integer.
pub fn push_decimal(out: &mut String, n: i64)
    ensures
        final(out)@ == old(out)@ + decimal_text(n as int),
{
    if n < 0 {
        out.append("-");
        proof {
            reveal_strlit("-");
            assert("-"@ =~= seq!['-']);
        }
        // -(n + 1) fits where -n may not.
        let magnitude: u64 = (-(n + 1)) as u64 + 1;
        push_digits(out, magnitude);
        assert(out@ =~= old(out)@ + decimal_text(n as int));
    } else {
        push_digits(out, n as u64);
    }
}

} // verus!
