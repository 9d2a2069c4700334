//! Recognising the text of a floating-point number.
//!
//! Nothing here computes the number: a threshold is kept as text, and this
//! module only says whether that text is well formed. The accepted form is
//!
//! ```text
//! Float    ::= Sign? ( 'inf' | 'infinity' | 'nan' | Number )
//! Number   ::= Mantissa Exponent?
//! Mantissa ::= Digit+ | Digit+ '.' Digit* | Digit* '.' Digit+
//! Exponent ::= 'e' Sign? Digit+
//! Sign     ::= '+' | '-'
//! Digit    ::= '0' .. '9'
//! ```
//!
//! where the letters may be written in either case.

use crate::integer::{all_digits, is_digit};
use crate::text::chars_of;
use vstd::prelude::*;

verus! {

/// Why a text is not a floating-point number.
#[derive(Clone, Copy, Debug, PartialEq, Eq, Structural)]
pub enum FloatFault {
    /// The text has no characters at all.
    Empty,
    /// The text does not have the accepted form.
    Invalid,
}

/// `c` is `+` or `-`.
pub open spec fn is_sign(c: char) -> bool {
    c == '+' || c == '-'
}

/// `s` without the one sign that may lead it.
pub open spec fn after_sign(s: Seq<char>) -> Seq<char> {
    if s.len() > 0 && is_sign(s[0]) {
        s.skip(1)
    } else {
        s
    }
}

/// `c` is the lower-case ASCII letter `letter` or its upper-case form.
pub open spec fn same_letter(c: char, letter: char) -> bool {
    c == letter || ('A' <= c <= 'Z' && c as int + 32 == letter as int)
}

/// `s` is the lower-case word `word`, letter for letter, in whatever case.
pub open spec fn spells(s: Seq<char>, word: Seq<char>) -> bool {
    &&& s.len() == word.len()
    &&& forall|i: int| 0 <= i < s.len() ==> same_letter(#[trigger] s[i], word[i])
}

/// `s` names an infinity or a value that is not a number.
pub open spec fn is_special(s: Seq<char>) -> bool {
    spells(s, "inf"@) || spells(s, "infinity"@) || spells(s, "nan"@)
}

/// `m` is made of digits with at most one `.` among them, and has a digit.
pub open spec fn is_mantissa(m: Seq<char>) -> bool {
    ||| m.len() > 0 && all_digits(m)
    ||| exists|p: int|
        0 <= p < m.len() && m.len() >= 2 && m[p] == '.' && all_digits(#[trigger] m.take(p))
            && all_digits(m.skip(p + 1))
}

/// `e` is the letter `e` followed by an optional sign and at least one digit.
pub open spec fn is_exponent(e: Seq<char>) -> bool {
    &&& e.len() > 0
    &&& same_letter(e[0], 'e')
    &&& after_sign(e.skip(1)).len() > 0
    &&& all_digits(after_sign(e.skip(1)))
}

/// `b` is a mantissa, or a mantissa followed by an exponent.
pub open spec fn is_number(b: Seq<char>) -> bool {
    ||| is_mantissa(b)
    ||| exists|k: int| 0 < k < b.len() && is_mantissa(#[trigger] b.take(k)) && is_exponent(b.skip(k))
}

/// `s` has the form of a floating-point number.
pub open spec fn is_float(s: Seq<char>) -> bool {
    is_special(after_sign(s)) || is_number(after_sign(s))
}

/// What checking `s` as a floating-point number gives.
pub open spec fn checked_float(s: Seq<char>) -> Result<(), FloatFault> {
    if s.len() == 0 {
        Err(FloatFault::Empty)
    } else if is_float(s) {
        Ok(())
    } else {
        Err(FloatFault::Invalid)
    }
}

/// The digits of `b` from `from` on run up to `end` and no further.
spec fn digit_run(b: Seq<char>, from: int, end: int) -> bool {
    &&& 0 <= from <= end <= b.len()
    &&& forall|i: int| from <= i < end ==> is_digit(#[trigger] b[i])
    &&& end < b.len() ==> !is_digit(b[end])
}

/// `b` read from the left: digits up to `a`, then, if a `.` stands there,
/// more digits up to `f`; without a `.`, `f` is `a`.
spec fn mantissa_scan(b: Seq<char>, a: int, f: int) -> bool {
    &&& digit_run(b, 0, a)
    &&& if a < b.len() && b[a] == '.' {
        digit_run(b, a + 1, f)
    } else {
        f == a
    }
}

/// The number of digits that a scan up to `a` and `f` has passed.
spec fn scanned_digits(b: Seq<char>, a: int, f: int) -> int {
    if a < b.len() && b[a] == '.' {
        f - 1
    } else {
        f
    }
}

/// A scan that has passed a digit has passed a mantissa.
proof fn lemma_scan_gives_mantissa(b: Seq<char>, a: int, f: int)
    requires
        mantissa_scan(b, a, f),
        scanned_digits(b, a, f) > 0,
    ensures
        0 < f <= b.len(),
        is_mantissa(b.take(f)),
{
    let m = b.take(f);
    if a < b.len() && b[a] == '.' {
        assert(m[a] == '.');
        assert(all_digits(m.take(a)));
        assert(all_digits(m.skip(a + 1)));
    } else {
        assert(all_digits(m));
    }
}

/// A mantissa that ends the text, or that a letter `e` follows, is the one
/// that the scan passes.
proof fn lemma_mantissa_is_scanned(b: Seq<char>, a: int, f: int, k: int)
    requires
        mantissa_scan(b, a, f),
        0 <= k <= b.len(),
        is_mantissa(b.take(k)),
        k < b.len() ==> same_letter(b[k], 'e'),
    ensures
        k == f,
        scanned_digits(b, a, f) > 0,
{
    let m = b.take(k);
    if m.len() > 0 && all_digits(m) {
        if a < k {
            assert(is_digit(m[a]));
        }
        if k < a {
            assert(is_digit(b[k]));
        }
    } else {
        let p = choose|p: int|
            0 <= p < m.len() && m.len() >= 2 && m[p] == '.' && all_digits(#[trigger] m.take(p))
                && all_digits(m.skip(p + 1));
        if a < p {
            assert(m.take(p)[a] == b[a]);
        }
        if p < a {
            assert(is_digit(b[p]));
        }
        assert(a == p);
        if f < k {
            assert(m.skip(p + 1)[f - (p + 1)] == b[f]);
        }
        if k < f {
            assert(is_digit(b[k]));
        }
    }
}

/// A number ends with its mantissa, or with an exponent after it.
proof fn lemma_number_splits(b: Seq<char>) -> (k: int)
    requires
        is_number(b),
    ensures
        0 <= k <= b.len(),
        is_mantissa(b.take(k)),
        k < b.len() ==> is_exponent(b.skip(k)),
{
    if is_mantissa(b) {
        assert(b.take(b.len() as int) =~= b);
        b.len() as int
    } else {
        choose|k: int| 0 < k < b.len() && is_mantissa(#[trigger] b.take(k)) && is_exponent(b.skip(k))
    }
}

/// Where the digits that start at `from` end.
fn digits_end(chars: &Vec<char>, from: usize) -> (end: usize)
    requires
        from <= chars.len(),
    ensures
        digit_run(chars@, from as int, end as int),
{
    let mut end: usize = from;
    while end < chars.len() && chars[end] >= '0' && chars[end] <= '9'
        invariant
            from <= end <= chars.len(),
            forall|i: int| from <= i < end ==> is_digit(#[trigger] chars[i]),
        decreases chars.len() - end,
    {
        end = end + 1;
    }
    end
}

/// Whether `c` is `letter` in either case.
fn is_letter(c: char, letter: char) -> (r: bool)
    ensures
        r == same_letter(c, letter),
{
    c == letter || (c >= 'A' && c <= 'Z' && c as u32 + 32 == letter as u32)
}

/// Whether the characters from `from` on spell `word`.
fn spells_word(chars: &Vec<char>, from: usize, word: &str) -> (r: bool)
    requires
        from <= chars.len(),
    ensures
        r == spells(chars@.skip(from as int), word@),
{
    let letters = chars_of(word);
    if chars.len() - from != letters.len() {
        return false;
    }
    let ghost s = chars@.skip(from as int);
    let mut i: usize = 0;
    while i < letters.len()
        invariant
            from <= chars.len(),
            letters@ == word@,
            s == chars@.skip(from as int),
            s.len() == letters.len(),
            0 <= i <= letters.len(),
            forall|j: int| 0 <= j < i ==> same_letter(#[trigger] s[j], word@[j]),
        decreases letters.len() - i,
    {
        if !is_letter(chars[from + i], letters[i]) {
            assert(!same_letter(s[i as int], word@[i as int]));
            return false;
        }
        i = i + 1;
    }
    true
}

/// Checks that `s` has the form of a floating-point number.
pub fn check_float(s: &str) -> (r: Result<(), FloatFault>)
    ensures
        r == checked_float(s@),
{
    let chars = chars_of(s);
    let n = chars.len();
    if n == 0 {
        return Err(FloatFault::Empty);
    }
    let start: usize = if chars[0] == '+' || chars[0] == '-' { 1 } else { 0 };
    let ghost b = after_sign(s@);
    assert(b == chars@.skip(start as int));
    if spells_word(&chars, start, "inf") || spells_word(&chars, start, "infinity") || spells_word(
        &chars,
        start,
        "nan",
    ) {
        return Ok(());
    }
    if number_from(&chars, start) {
        Ok(())
    } else {
        Err(FloatFault::Invalid)
    }
}

/// Whether the characters from `start` on are a number.
fn number_from(chars: &Vec<char>, start: usize) -> (r: bool)
    requires
        start <= chars.len(),
    ensures
        r == is_number(chars@.skip(start as int)),
{
    let n = chars.len();
    let ghost b = chars@.skip(start as int);
    let whole_end = digits_end(chars, start);
    let has_point = whole_end < n && chars[whole_end] == '.';
    let mantissa_end = if has_point { digits_end(chars, whole_end + 1) } else { whole_end };
    let ghost a = whole_end - start;
    let ghost f = mantissa_end - start;
    assert(mantissa_scan(b, a, f));
    let digits = if has_point { mantissa_end - start - 1 } else { mantissa_end - start };
    assert(digits == scanned_digits(b, a, f));
    if digits == 0 {
        proof {
            if is_number(b) {
                let k = lemma_number_splits(b);
                lemma_mantissa_is_scanned(b, a, f, k);
            }
        }
        return false;
    }
    proof {
        lemma_scan_gives_mantissa(b, a, f);
    }
    if mantissa_end == n {
        assert(b.take(f) =~= b);
        return true;
    }
    if !is_letter(chars[mantissa_end], 'e') {
        proof {
            if is_number(b) {
                let k = lemma_number_splits(b);
                lemma_mantissa_is_scanned(b, a, f, k);
            }
        }
        return false;
    }
    let signed = mantissa_end + 1 < n && (chars[mantissa_end + 1] == '+' || chars[mantissa_end + 1]
        == '-');
    let power_start = if signed { mantissa_end + 2 } else { mantissa_end + 1 };
    let power_end = digits_end(chars, power_start);
    let ghost e = b.skip(f);
    let ghost power = after_sign(e.skip(1));
    assert(power =~= chars@.skip(power_start as int));
    if power_end > power_start && power_end == n {
        assert(is_exponent(e));
        true
    } else {
        proof {
            if is_number(b) {
                let k = lemma_number_splits(b);
                lemma_mantissa_is_scanned(b, a, f, k);
                assert(is_exponent(e));
                if power_end < n {
                    assert(power[power_end - power_start] == chars[power_end as int]);
                }
            }
        }
        false
    }
}

} // verus!
