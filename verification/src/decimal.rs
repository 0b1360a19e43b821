//! Decimal numbers as header fields write them: bytes, most significant
//! digit first.

use vstd::prelude::*;

verus! {

/// Whether `byte` is one of the ASCII digits `0` to `9`.
pub open spec fn is_digit(byte: u8) -> bool {
    0x30 <= byte <= 0x39
}

/// Whether every byte of `text` is a digit.
pub open spec fn all_digits(text: Seq<u8>) -> bool {
    forall|i: int| 0 <= i < text.len() ==> is_digit(#[trigger] text[i])
}

/// The number that a run of digits stands for. The empty run stands for 0.
pub open spec fn digits_value(digits: Seq<u8>) -> nat
    decreases digits.len(),
{
    if digits.len() == 0 {
        0
    } else {
        digits_value(digits.drop_last()) * 10 + (digits.last() - 0x30) as nat
    }
}

/// `text` without the one plus sign that may lead it.
pub open spec fn unsigned_part(text: Seq<u8>) -> Seq<u8> {
    if text.len() > 0 && text[0] == 0x2b {
        text.skip(1)
    } else {
        text
    }
}

/// The 64-bit number that `text` stands for, if it stands for one: an
/// optional plus sign, then one digit or more, with a value of at most
/// `u64::MAX`. Leading zeros count for nothing; blanks, a minus sign and any
/// other byte leave `text` without a value.
pub open spec fn decimal_value(text: Seq<u8>) -> Option<u64> {
    let digits = unsigned_part(text);
    if digits.len() > 0 && all_digits(digits) && digits_value(digits) <= u64::MAX {
        Some(digits_value(digits) as u64)
    } else {
        None
    }
}

/// The digits of `number`, without leading zeros; `0` is the one digit `0`.
pub open spec fn decimal_digits(number: nat) -> Seq<u8>
    decreases number,
{
    if number < 10 {
        seq![(0x30 + number) as u8]
    } else {
        decimal_digits(number / 10).push((0x30 + number % 10) as u8)
    }
}

/// A run of digits with one more digit behind it is worth ten times the run,
/// plus the digit.
pub proof fn lemma_value_of_push(digits: Seq<u8>, byte: u8)
    ensures
        digits_value(digits.push(byte)) == digits_value(digits) * 10 + (byte - 0x30) as nat,
{
    assert(digits.push(byte).drop_last() =~= digits);
}

/// No run of digits is worth less than one of its prefixes.
pub proof fn lemma_value_of_prefix(digits: Seq<u8>, len: int)
    requires
        0 <= len <= digits.len(),
    ensures
        digits_value(digits.take(len)) <= digits_value(digits),
    decreases digits.len() - len,
{
    if len == digits.len() {
        assert(digits.take(len) =~= digits);
    } else {
        assert(digits.drop_last().take(len) =~= digits.take(len));
        lemma_value_of_prefix(digits.drop_last(), len);
    }
}

/// Reads a decimal number of at most 64 bits.
pub fn parse_decimal(text: &[u8]) -> (number: Option<u64>)
    ensures
        number == decimal_value(text@),
{
    let start: usize = if text.len() > 0 && text[0] == 0x2b {
        1
    } else {
        0
    };
    let ghost digits = unsigned_part(text@);
    if start == text.len() {
        return None;
    }
    let mut value: u64 = 0;
    let mut at: usize = start;
    while at < text.len()
        invariant
            start <= at <= text.len(),
            digits == unsigned_part(text@),
            digits == text@.skip(start as int),
            all_digits(digits.take(at - start)),
            value == digits_value(digits.take(at - start)),
        decreases text.len() - at,
    {
        let byte: u8 = text[at];
        let ghost seen = digits.take(at - start);
        assert(digits[at - start] == byte);
        assert(digits.take(at - start + 1) =~= seen.push(byte));
        if byte < 0x30 || byte > 0x39 {
            return None;
        }
        let digit: u64 = (byte - 0x30) as u64;
        proof {
            lemma_value_of_push(seen, byte);
        }
        if value > (u64::MAX - digit) / 10 {
            proof {
                lemma_value_of_prefix(digits, at - start + 1);
            }
            return None;
        }
        value = value * 10 + digit;
        at = at + 1;
    }
    assert(digits.take(at - start) =~= digits);
    Some(value)
}

/// Writes the digits of `number` behind what `out` holds.
pub fn append_decimal(out: &mut Vec<u8>, number: u64)
    ensures
        final(out)@ == old(out)@ + decimal_digits(number as nat),
    decreases number,
{
    if number >= 10 {
        append_decimal(out, number / 10);
    }
    out.push(0x30 + (number % 10) as u8);
}

/// What `append_decimal` writes, `parse_decimal` reads back: the digits of a
/// number are digits, at least one of them, and are worth the number.
pub proof fn lemma_digits_stand_for_number(number: nat)
    ensures
        decimal_digits(number).len() > 0,
        all_digits(decimal_digits(number)),
        digits_value(decimal_digits(number)) == number,
        number <= u64::MAX ==> decimal_value(decimal_digits(number)) == Some(number as u64),
    decreases number,
{
    if number < 10 {
        let one = seq![(0x30 + number) as u8];
        assert(digits_value(one.drop_last()) == 0);
    } else {
        lemma_digits_stand_for_number(number / 10);
        lemma_value_of_push(decimal_digits(number / 10), (0x30 + number % 10) as u8);
    }
}

} // verus!
