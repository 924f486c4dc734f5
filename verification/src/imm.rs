//! Immediate literals: an optional sign, an optional radix marker, and digits.

use crate::error::AsmError;
use crate::text::{char_digit_value, chars_of, digit_value, is_digit_of};
use vstd::prelude::*;

verus! {

/// Number of characters the sign takes: one for a leading `+` or `-`, else none.
pub open spec fn sign_len(s: Seq<char>) -> int {
    if s.len() > 0 && (s[0] == '+' || s[0] == '-') {
        1
    } else {
        0
    }
}

/// The literal starts with a minus sign.
pub open spec fn is_negative(s: Seq<char>) -> bool {
    s.len() > 0 && s[0] == '-'
}

/// Radix that a letter after a leading `0` selects, if it is a marker.
pub open spec fn marker_radix(c: char) -> Option<nat> {
    if c == 'x' || c == 'h' {
        Some(16)
    } else if c == 'b' || c == 'y' {
        Some(2)
    } else if c == 'o' || c == 'q' {
        Some(8)
    } else if c == 'd' {
        Some(10)
    } else {
        None
    }
}

/// Number of characters the radix marker takes at the start of an unsigned
/// literal: one for `$`, two for `0` and a marker letter, else none. A `0`
/// that no marker letter follows is a digit.
pub open spec fn marker_len(body: Seq<char>) -> int {
    if body.len() > 0 && body[0] == '$' {
        1
    } else if body.len() > 1 && body[0] == '0' && marker_radix(body[1]) is Some {
        2
    } else {
        0
    }
}

/// Radix of an unsigned literal: what its marker selects, ten without one.
pub open spec fn radix_of(body: Seq<char>) -> nat {
    if body.len() > 0 && body[0] == '$' {
        16
    } else if body.len() > 1 && body[0] == '0' && marker_radix(body[1]) is Some {
        marker_radix(body[1])->0
    } else {
        10
    }
}

/// Every character is a digit of base `radix`.
pub open spec fn all_digits(digits: Seq<char>, radix: nat) -> bool {
    forall|i: int| 0 <= i < digits.len() ==> is_digit_of(#[trigger] digits[i], radix)
}

/// The number that `digits` spell in base `radix`, most significant first.
pub open spec fn digits_value(digits: Seq<char>, radix: nat) -> nat
    decreases digits.len(),
{
    if digits.len() == 0 {
        0
    } else {
        digits_value(digits.drop_last(), radix) * radix + digit_value(digits.last()).unwrap_or(0)
    }
}

/// The digits of a literal: what follows the sign and the radix marker.
pub open spec fn digits_of(s: Seq<char>) -> Seq<char> {
    let body = s.skip(sign_len(s));
    body.skip(marker_len(body))
}

/// The value of an immediate literal, or `None` where the text is none:
/// where no digit follows sign and marker, where a character is no digit of
/// the radix, or where the magnitude is above `i32::MAX`.
pub open spec fn parse_immediate(s: Seq<char>) -> Option<int> {
    let radix = radix_of(s.skip(sign_len(s)));
    let digits = digits_of(s);
    if digits.len() > 0 && all_digits(digits, radix) && digits_value(digits, radix) <= i32::MAX {
        if is_negative(s) {
            Some(-(digits_value(digits, radix) as int))
        } else {
            Some(digits_value(digits, radix) as int)
        }
    } else {
        None
    }
}

/// One more digit multiplies the value by the radix and adds the digit.
pub proof fn lemma_digits_value_step(digits: Seq<char>, radix: nat, k: int)
    requires
        0 <= k < digits.len(),
    ensures
        digits_value(digits.take(k + 1), radix) == digits_value(digits.take(k), radix) * radix
            + digit_value(digits[k]).unwrap_or(0),
{
    assert(digits.take(k + 1).drop_last() =~= digits.take(k));
}

/// The value of a prefix of a digit string is at most the value of the whole.
pub proof fn lemma_digits_value_prefix(digits: Seq<char>, radix: nat, k: int)
    requires
        0 <= k <= digits.len(),
        radix >= 1,
    ensures
        digits_value(digits.take(k), radix) <= digits_value(digits, radix),
    decreases digits.len(),
{
    if k == digits.len() {
        assert(digits.take(k) =~= digits);
    } else {
        let front = digits.drop_last();
        lemma_digits_value_prefix(front, radix, k);
        assert(front.take(k) =~= digits.take(k));
        assert(digits_value(front, radix) * radix >= digits_value(front, radix))
            by (nonlinear_arith)
            requires
                radix >= 1,
        ;
    }
}

/// The radix markers of the grammar, each with the radix it selects; the empty
/// marker selects ten.
pub open spec fn prefix_radix(prefix: Seq<char>) -> Option<nat> {
    if prefix =~= Seq::<char>::empty() {
        Some(10)
    } else if prefix =~= seq!['$'] {
        Some(16)
    } else if prefix.len() == 2 && prefix[0] == '0' {
        marker_radix(prefix[1])
    } else {
        None
    }
}

/// A sign is nothing, `+` or `-`.
pub open spec fn is_sign(sign: Seq<char>) -> bool {
    sign =~= Seq::<char>::empty() || sign =~= seq!['+'] || sign =~= seq!['-']
}

/// A literal put together from a sign, a radix marker and digits of the
/// marker's radix parses to the number that the digits spell in that radix,
/// negated under a minus sign. This holds for each marker of the grammar and
/// without one, whenever there is a digit and the number is at most `i32::MAX`.
pub proof fn lemma_parse_prefixed(sign: Seq<char>, prefix: Seq<char>, digits: Seq<char>)
    requires
        is_sign(sign),
        prefix_radix(prefix) is Some,
        digits.len() > 0,
        all_digits(digits, prefix_radix(prefix)->0),
        digits_value(digits, prefix_radix(prefix)->0) <= i32::MAX,
    ensures
        parse_immediate(sign + prefix + digits) == Some(
            if sign =~= seq!['-'] {
                -(digits_value(digits, prefix_radix(prefix)->0) as int)
            } else {
                digits_value(digits, prefix_radix(prefix)->0) as int
            },
        ),
{
    let radix = prefix_radix(prefix)->0;
    let s = sign + prefix + digits;
    let body = prefix + digits;
    assert(is_digit_of(digits[0], radix));
    assert(s[0] == if sign.len() > 0 {
        sign[0]
    } else if prefix.len() > 0 {
        prefix[0]
    } else {
        digits[0]
    });
    assert(sign_len(s) == sign.len());
    assert(s.skip(sign_len(s)) =~= body);
    if prefix.len() == 0 {
        assert(body[0] == digits[0]);
        if digits.len() > 1 {
            assert(body[1] == digits[1]);
            assert(is_digit_of(digits[1], radix));
        }
    } else if prefix.len() == 1 {
        assert(body[0] == prefix[0]);
    } else {
        assert(body[0] == prefix[0]);
        assert(body[1] == prefix[1]);
    }
    assert(marker_len(body) == prefix.len());
    assert(radix_of(body) == radix);
    assert(body.skip(marker_len(body)) =~= digits);
}

/// Parses an immediate literal.
///
/// The text is an optional `+` or `-`, then an optional radix marker (`$`,
/// `0x` or `0h` for sixteen, `0b` or `0y` for two, `0o` or `0q` for eight,
/// `0d` for ten), then at least one digit of that radix. The result is the
/// signed value; any other text is `MalformedImmediate`.
pub fn imm_string_to_i32(imm_string: &str) -> (r: Result<i32, AsmError>)
    ensures
        match parse_immediate(imm_string@) {
            Some(v) => r is Ok && r->Ok_0 == v,
            None => r == Err::<i32, AsmError>(AsmError::MalformedImmediate),
        },
{
    let text = chars_of(imm_string);
    let n = text.len();
    let mut pos: usize = 0;
    let mut negative = false;
    if n > 0 && (text[0] == '+' || text[0] == '-') {
        negative = text[0] == '-';
        pos = 1;
    }
    let mut radix: u32 = 10;
    if pos < n && text[pos] == '$' {
        radix = 16;
        pos += 1;
    } else if n - pos > 1 && text[pos] == '0' {
        let marker = text[pos + 1];
        if marker == 'x' || marker == 'h' {
            radix = 16;
            pos += 2;
        } else if marker == 'b' || marker == 'y' {
            radix = 2;
            pos += 2;
        } else if marker == 'o' || marker == 'q' {
            radix = 8;
            pos += 2;
        } else if marker == 'd' {
            pos += 2;
        }
    }
    let start = pos;
    let ghost digits = text@.skip(start as int);
    assert(digits =~= digits_of(imm_string@));
    assert(radix == radix_of(imm_string@.skip(sign_len(imm_string@))));
    if pos >= n {
        return Err(AsmError::MalformedImmediate);
    }
    let mut value: u32 = 0;
    while pos < n
        invariant
            start <= pos <= n,
            n == text@.len(),
            digits == text@.skip(start as int),
            digits == digits_of(imm_string@),
            radix as nat == radix_of(imm_string@.skip(sign_len(imm_string@))),
            2 <= radix <= 16,
            value <= i32::MAX,
            value == digits_value(digits.take(pos - start), radix as nat),
            all_digits(digits.take(pos - start), radix as nat),
        decreases n - pos,
    {
        let c = text[pos];
        assert(c == digits[pos - start]);
        let digit = match char_digit_value(c) {
            Some(d) => d,
            None => {
                assert(!is_digit_of(digits[pos - start], radix as nat));
                return Err(AsmError::MalformedImmediate);
            },
        };
        if digit >= radix {
            assert(!is_digit_of(digits[pos - start], radix as nat));
            return Err(AsmError::MalformedImmediate);
        }
        proof {
            lemma_digits_value_step(digits, radix as nat, pos - start);
            assert(value * radix <= 0x7fff_ffff * 16) by (nonlinear_arith)
                requires
                    value <= 0x7fff_ffff,
                    radix <= 16,
            ;
        }
        let next: u64 = value as u64 * radix as u64 + digit as u64;
        if next > 0x7fff_ffff {
            proof {
                if all_digits(digits, radix as nat) {
                    lemma_digits_value_prefix(digits, radix as nat, pos - start + 1);
                }
            }
            return Err(AsmError::MalformedImmediate);
        }
        value = next as u32;
        pos += 1;
    }
    assert(digits.take(pos - start) =~= digits);
    if negative {
        Ok(-(value as i32))
    } else {
        Ok(value as i32)
    }
}

} // verus!
