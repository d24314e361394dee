//! Whole numbers written in decimal digits, as text formats store them.

use vstd::prelude::*;

verus! {

/// Whether `byte` is one of the digits `0` to `9`.
pub open spec fn is_digit(byte: u8) -> bool {
    0x30 <= byte <= 0x39
}

/// The number of digits that `s` starts with.
pub open spec fn digit_count(s: Seq<u8>) -> nat
    decreases s.len(),
{
    if s.len() > 0 && is_digit(s[0]) {
        1 + digit_count(s.skip(1))
    } else {
        0
    }
}

/// The number that the first `n` bytes of `s` spell in decimal digits.
pub open spec fn decimal(s: Seq<u8>, n: nat) -> nat
    decreases n,
{
    if n == 0 {
        0
    } else {
        10 * decimal(s, (n - 1) as nat) + (s[n - 1] - 0x30) as nat
    }
}

/// The digits of `s` counted so far are digits, and where the count has
/// not reached the end, the next byte decides whether it goes on.
proof fn lemma_digit_count_step(s: Seq<u8>, k: nat)
    requires
        k <= s.len(),
        forall|j: int| 0 <= j < k ==> is_digit(#[trigger] s[j]),
    ensures
        digit_count(s) == k + digit_count(s.skip(k as int)),
    decreases k,
{
    if k == 0 {
        assert(s.skip(0) =~= s);
    } else {
        lemma_digit_count_step(s, (k - 1) as nat);
        let rest = s.skip(k - 1);
        assert(rest[0] == s[k - 1]);
        assert(rest.skip(1) =~= s.skip(k as int));
    }
}

/// More digits never spell a smaller number.
proof fn lemma_decimal_grows(s: Seq<u8>, k: nat, n: nat)
    requires
        k <= n <= s.len(),
        forall|j: int| 0 <= j < n ==> is_digit(#[trigger] s[j]),
    ensures
        decimal(s, k) <= decimal(s, n),
    decreases n,
{
    if k < n {
        lemma_decimal_grows(s, k, (n - 1) as nat);
    }
}

/// Reads the decimal digits that `input` starts with as a number of at
/// most `max`.
///
/// The result is the number and the count of its digits. It is `None`
/// where `input` starts with no digit, and where the digits spell a number
/// above `max`.
pub fn decimal_upto(input: &[u8], max: u64) -> (r: Option<(u64, usize)>)
    ensures
        match r {
            Some((value, digits)) => {
                &&& digits == digit_count(input@)
                &&& 0 < digits <= input@.len()
                &&& value == decimal(input@, digits as nat)
                &&& value <= max
            },
            None => digit_count(input@) == 0 || decimal(input@, digit_count(input@)) > max,
        },
{
    let mut value: u64 = 0;
    let mut i: usize = 0;
    while i < input.len() && 0x30 <= input[i] && input[i] <= 0x39
        invariant
            i <= input@.len(),
            forall|j: int| 0 <= j < i ==> is_digit(#[trigger] input@[j]),
            value == decimal(input@, i as nat),
            value <= max,
        decreases input@.len() - i,
    {
        let digit = (input[i] - 0x30) as u64;
        if digit > max || value > (max - digit) / 10 {
            proof {
                let n = digit_count(input@);
                lemma_digit_count_step(input@, (i + 1) as nat);
                assert(n >= i + 1);
                lemma_digits_are_digits(input@, n - 1);
                assert forall|j: int| 0 <= j < n implies is_digit(#[trigger] input@[j]) by {
                    lemma_digits_are_digits(input@, j);
                }
                lemma_decimal_grows(input@, (i + 1) as nat, n);
            }
            return None;
        }
        value = value * 10 + digit;
        i = i + 1;
    }
    proof {
        lemma_digit_count_step(input@, i as nat);
        let rest = input@.skip(i as int);
        if rest.len() > 0 {
            assert(rest[0] == input@[i as int]);
        }
    }
    if i == 0 {
        None
    } else {
        Some((value, i))
    }
}

/// Every byte before the count of leading digits is a digit.
proof fn lemma_digits_are_digits(s: Seq<u8>, j: int)
    requires
        0 <= j < digit_count(s),
    ensures
        j < s.len(),
        is_digit(s[j]),
    decreases s.len(),
{
    if j > 0 {
        lemma_digits_are_digits(s.skip(1), j - 1);
    }
}

/// Reads an unsigned byte written in decimal digits.
pub fn uint8(input: &[u8]) -> (r: Option<(u8, usize)>)
    ensures
        match r {
            Some((value, digits)) => digits == digit_count(input@) && digits > 0 && value
                == decimal(input@, digits as nat),
            None => digit_count(input@) == 0 || decimal(input@, digit_count(input@)) > u8::MAX,
        },
{
    match decimal_upto(input, 0xFF) {
        Some((value, digits)) => Some((value as u8, digits)),
        None => None,
    }
}

/// Reads an unsigned 16-bit integer written in decimal digits.
pub fn uint16(input: &[u8]) -> (r: Option<(u16, usize)>)
    ensures
        match r {
            Some((value, digits)) => digits == digit_count(input@) && digits > 0 && value
                == decimal(input@, digits as nat),
            None => digit_count(input@) == 0 || decimal(input@, digit_count(input@)) > u16::MAX,
        },
{
    match decimal_upto(input, 0xFFFF) {
        Some((value, digits)) => Some((value as u16, digits)),
        None => None,
    }
}

/// Reads an unsigned 32-bit integer written in decimal digits.
pub fn uint32(input: &[u8]) -> (r: Option<(u32, usize)>)
    ensures
        match r {
            Some((value, digits)) => digits == digit_count(input@) && digits > 0 && value
                == decimal(input@, digits as nat),
            None => digit_count(input@) == 0 || decimal(input@, digit_count(input@)) > u32::MAX,
        },
{
    match decimal_upto(input, 0xFFFF_FFFF) {
        Some((value, digits)) => Some((value as u32, digits)),
        None => None,
    }
}

/// Reads an unsigned 32-bit integer written in decimal digits.
pub fn uint(input: &[u8]) -> (r: Option<(u32, usize)>)
    ensures
        match r {
            Some((value, digits)) => digits == digit_count(input@) && digits > 0 && value
                == decimal(input@, digits as nat),
            None => digit_count(input@) == 0 || decimal(input@, digit_count(input@)) > u32::MAX,
        },
{
    uint32(input)
}

/// Whether `s` starts with a minus sign.
pub open spec fn is_negative(s: Seq<u8>) -> bool {
    s.len() > 0 && s[0] == 0x2D
}

/// The digits of a signed number: `s` without its minus sign.
pub open spec fn magnitude(s: Seq<u8>) -> Seq<u8> {
    if is_negative(s) {
        s.skip(1)
    } else {
        s
    }
}

/// The signed number that `s` spells: its digits, negated behind a minus
/// sign.
pub open spec fn signed_decimal(s: Seq<u8>) -> int {
    let digits = magnitude(s);
    let value = decimal(digits, digit_count(digits)) as int;
    if is_negative(s) {
        -value
    } else {
        value
    }
}

/// Reads a signed 32-bit integer written as an optional minus sign and
/// decimal digits.
///
/// The result is the number and the count of bytes it takes, the sign
/// included. It is `None` where no digit follows the optional sign, and
/// where the number does not fit.
pub fn int32(input: &[u8]) -> (r: Option<(i32, usize)>)
    ensures
        match r {
            Some((value, length)) => {
                &&& digit_count(magnitude(input@)) > 0
                &&& value == signed_decimal(input@)
                &&& length == digit_count(magnitude(input@)) + if is_negative(input@) {
                    1int
                } else {
                    0int
                }
            },
            None => digit_count(magnitude(input@)) == 0 || signed_decimal(input@) < i32::MIN
                || signed_decimal(input@) > i32::MAX,
        },
{
    if input.len() > 0 && input[0] == 0x2D {
        let rest = vstd::slice::slice_subrange(input, 1, input.len());
        assert(rest@ =~= input@.skip(1));
        match decimal_upto(rest, 0x8000_0000) {
            Some((value, digits)) => {
                let negated: i64 = -(value as i64);
                proof {
                    lemma_digits_are_digits(rest@, 0);
                }
                Some((negated as i32, digits + 1))
            },
            None => None,
        }
    } else {
        match decimal_upto(input, 0x7FFF_FFFF) {
            Some((value, digits)) => Some((value as i32, digits)),
            None => None,
        }
    }
}

} // verus!
