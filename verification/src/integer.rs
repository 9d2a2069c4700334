//! Reading an unsigned 16-bit integer from decimal text.
//!
//! The accepted form is an optional `+` followed by one or more of the ASCII
//! digits `0` to `9`, with a value of at most `u16::MAX`. Nothing else is
//! accepted: no `-`, no blanks, no underscores, no other digits of Unicode.

use crate::text::chars_of;
use vstd::prelude::*;

verus! {

/// Why a text is not an unsigned 16-bit integer.
#[derive(Clone, Copy, Debug, PartialEq, Eq, Structural)]
pub enum IntegerFault {
    /// The text has no characters at all.
    Empty,
    /// A character that is not a decimal digit stands where a digit is needed,
    /// or a sign stands alone.
    InvalidDigit,
    /// The digits read so far already exceed `u16::MAX`.
    PosOverflow,
}

/// `c` is one of the ASCII digits `0` to `9`.
pub open spec fn is_digit(c: char) -> bool {
    '0' <= c <= '9'
}

/// The number that the digit `c` stands for; 0 for any other character.
pub open spec fn digit_value(c: char) -> nat {
    if is_digit(c) {
        (c as int - '0' as int) as nat
    } else {
        0
    }
}

/// Every character of `s` is a digit.
pub open spec fn all_digits(s: Seq<char>) -> bool {
    forall|i: int| 0 <= i < s.len() ==> is_digit(#[trigger] s[i])
}

/// The number that `digits` spells in base ten, the last character being the
/// units. The empty text spells 0.
pub open spec fn decimal_value(digits: Seq<char>) -> nat
    decreases digits.len(),
{
    if digits.len() == 0 {
        0
    } else {
        10 * decimal_value(digits.drop_last()) + digit_value(digits.last())
    }
}

/// `s` without the one `+` that may lead it.
pub open spec fn after_plus(s: Seq<char>) -> Seq<char> {
    if s.len() > 0 && s[0] == '+' {
        s.skip(1)
    } else {
        s
    }
}

/// Some leading run of `d` is made of digits only and spells more than
/// `u16::MAX`.
pub open spec fn overflows(d: Seq<char>) -> bool {
    exists|n: int|
        0 <= n <= d.len() && all_digits(#[trigger] d.take(n)) && decimal_value(d.take(n))
            > u16::MAX
}

/// What reading `s` as an unsigned 16-bit integer gives.
///
/// The value, when `s` has the accepted form. Otherwise the fault that a
/// reader meets first when it goes through the text from the left:
/// `PosOverflow` when a leading run of digits is already too large,
/// `InvalidDigit` when a wrong character comes before that.
pub open spec fn parsed_u16(s: Seq<char>) -> Result<u16, IntegerFault> {
    let d = after_plus(s);
    if s.len() == 0 {
        Err(IntegerFault::Empty)
    } else if d.len() > 0 && all_digits(d) && decimal_value(d) <= u16::MAX {
        Ok(decimal_value(d) as u16)
    } else if overflows(d) {
        Err(IntegerFault::PosOverflow)
    } else {
        Err(IntegerFault::InvalidDigit)
    }
}

/// Appending one character multiplies the value by ten and adds the digit.
proof fn lemma_decimal_value_push(d: Seq<char>, n: int)
    requires
        0 <= n < d.len(),
    ensures
        decimal_value(d.take(n + 1)) == 10 * decimal_value(d.take(n)) + digit_value(d[n]),
{
    assert(d.take(n + 1).drop_last() =~= d.take(n));
}

/// A longer leading run never spells less than a shorter one.
proof fn lemma_decimal_value_grows(d: Seq<char>, m: int, n: int)
    requires
        0 <= m <= n <= d.len(),
    ensures
        decimal_value(d.take(m)) <= decimal_value(d.take(n)),
    decreases n - m,
{
    if m < n {
        lemma_decimal_value_push(d, n - 1);
        lemma_decimal_value_grows(d, m, n - 1);
    }
}

/// Reads `s` as an unsigned 16-bit integer in base ten.
pub fn parse_u16(s: &str) -> (r: Result<u16, IntegerFault>)
    ensures
        r == parsed_u16(s@),
{
    let chars = chars_of(s);
    let n = chars.len();
    if n == 0 {
        return Err(IntegerFault::Empty);
    }
    let start: usize = if chars[0] == '+' { 1 } else { 0 };
    let ghost d = after_plus(s@);
    if start == n {
        proof {
            assert(d.len() == 0);
            assert forall|k: int| 0 <= k <= d.len() implies decimal_value(#[trigger] d.take(k))
                == 0 by {}
        }
        return Err(IntegerFault::InvalidDigit);
    }
    let mut acc: u16 = 0;
    let mut i: usize = start;
    while i < n
        invariant
            n == chars.len(),
            chars@ == s@,
            0 < n,
            d == after_plus(s@),
            d.len() == n - start,
            start <= i <= n,
            forall|k: int| 0 <= k < d.len() ==> d[k] == chars[k + start],
            all_digits(d.take(i - start)),
            acc == decimal_value(d.take(i - start)),
        decreases n - i,
    {
        let c = chars[i];
        let ghost p = i - start;
        if !(c >= '0' && c <= '9') {
            proof {
                assert(!is_digit(d[p]));
                assert forall|k: int|
                    0 <= k <= d.len() && all_digits(#[trigger] d.take(k)) implies decimal_value(
                    d.take(k),
                ) <= u16::MAX by {
                    if k > p {
                        assert(d.take(k)[p] == d[p]);
                    } else {
                        lemma_decimal_value_grows(d, k, p);
                    }
                }
            }
            return Err(IntegerFault::InvalidDigit);
        }
        let digit: u32 = c as u32 - '0' as u32;
        let next: u32 = acc as u32 * 10 + digit;
        proof {
            lemma_decimal_value_push(d, p);
            assert forall|k: int| 0 <= k < p + 1 implies is_digit(#[trigger] d.take(p + 1)[k]) by {
                if k < p {
                    assert(d.take(p)[k] == d[k]);
                }
            }
        }
        if next > 65535 {
            proof {
                assert(d.take(d.len() as int) =~= d);
                lemma_decimal_value_grows(d, p + 1, d.len() as int);
            }
            return Err(IntegerFault::PosOverflow);
        }
        acc = next as u16;
        i = i + 1;
    }
    proof {
        assert(d.take(d.len() as int) =~= d);
    }
    Ok(acc)
}

} // verus!
