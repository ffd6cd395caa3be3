//! Amounts on the wire.
//!
//! An amount has 128 bits, more than a number of a text format can be
//! trusted to carry. On the wire it is therefore text: its decimal digits in
//! ASCII, most significant first, with no sign, no space and no leading zero.
//! Every amount has exactly one such text.

use vstd::prelude::*;

verus! {

/// The ASCII code of the digit zero.
pub const DIGIT_ZERO: u8 = 48;

/// The ASCII code of the digit nine.
pub const DIGIT_NINE: u8 = 57;

/// Whether `byte` is an ASCII decimal digit.
pub open spec fn is_digit(byte: u8) -> bool {
    DIGIT_ZERO <= byte <= DIGIT_NINE
}

/// The number that a sequence of digits writes, most significant first.
pub open spec fn digits_value(text: Seq<u8>) -> nat
    decreases text.len(),
{
    if text.len() == 0 {
        0
    } else {
        digits_value(text.drop_last()) * 10 + (text.last() - DIGIT_ZERO) as nat
    }
}

/// Whether `text` is the text of some number: one digit or more, and no
/// leading zero but in the text of zero itself.
pub open spec fn is_canonical(text: Seq<u8>) -> bool {
    &&& text.len() > 0
    &&& forall|i: int| 0 <= i < text.len() ==> is_digit(#[trigger] text[i])
    &&& (text.len() > 1 ==> text[0] != DIGIT_ZERO)
}

/// The text of `value`.
pub open spec fn amount_text(value: nat) -> Seq<u8>
    decreases value,
{
    if value < 10 {
        seq![(DIGIT_ZERO + value) as u8]
    } else {
        amount_text(value / 10).push((DIGIT_ZERO + value % 10) as u8)
    }
}

/// The amount that `text` stands for, where it is the text of one that fits
/// in 128 bits.
pub open spec fn parse_amount(text: Seq<u8>) -> Option<u128> {
    if is_canonical(text) && digits_value(text) <= u128::MAX {
        Some(digits_value(text) as u128)
    } else {
        None
    }
}

/// A prefix of digits writes no more than the whole.
pub proof fn lemma_prefix_value(text: Seq<u8>, n: int)
    requires
        0 <= n <= text.len(),
        forall|i: int| 0 <= i < text.len() ==> is_digit(#[trigger] text[i]),
    ensures
        digits_value(text.take(n)) <= digits_value(text),
    decreases text.len(),
{
    if n == text.len() {
        assert(text.take(n) =~= text);
    } else {
        lemma_prefix_value(text.drop_last(), n);
        assert(text.drop_last().take(n) =~= text.take(n));
    }
}

/// Writes `value` as its text.
pub fn encode_amount(value: u128) -> (text: Vec<u8>)
    ensures
        text@ == amount_text(value as nat),
{
    let mut text: Vec<u8> = Vec::new();
    let mut rest: u128 = value;
    while rest >= 10
        invariant
            amount_text(value as nat) == amount_text(rest as nat) + text@,
        decreases rest,
    {
        let digit: u8 = DIGIT_ZERO + (rest % 10) as u8;
        proof {
            assert(amount_text(rest as nat) == amount_text((rest / 10) as nat).push(digit));
            assert(amount_text((rest / 10) as nat).push(digit) + text@ =~= amount_text(
                (rest / 10) as nat,
            ) + text@.insert(0, digit));
        }
        text.insert(0, digit);
        rest = rest / 10;
    }
    let digit: u8 = DIGIT_ZERO + rest as u8;
    proof {
        assert(amount_text(rest as nat) + text@ =~= text@.insert(0, digit));
    }
    text.insert(0, digit);
    text
}

/// Reads an amount from its text. Anything but the text of an amount that
/// fits in 128 bits is turned down: no digit at all, a byte that is no
/// digit, a leading zero before other digits, a number too large.
pub fn decode_amount(text: &[u8]) -> (amount: Option<u128>)
    ensures
        amount == parse_amount(text@),
{
    let n = text.len();
    if n == 0 {
        return None;
    }
    if n > 1 && text[0] == DIGIT_ZERO {
        return None;
    }
    let mut value: u128 = 0;
    let mut i: usize = 0;
    while i < n
        invariant
            n == text.len(),
            i <= n,
            forall|k: int| 0 <= k < i ==> is_digit(#[trigger] text@[k]),
            value == digits_value(text@.take(i as int)),
        decreases n - i,
    {
        let byte = text[i];
        if byte < DIGIT_ZERO || byte > DIGIT_NINE {
            return None;
        }
        let digit: u128 = (byte - DIGIT_ZERO) as u128;
        proof {
            assert(text@.take(i + 1).drop_last() =~= text@.take(i as int));
            if is_canonical(text@) {
                lemma_prefix_value(text@, i + 1);
            }
        }
        let shifted = match value.checked_mul(10) {
            Some(shifted) => shifted,
            None => {
                return None;
            },
        };
        value = match shifted.checked_add(digit) {
            Some(sum) => sum,
            None => {
                return None;
            },
        };
        i += 1;
    }
    proof {
        assert(text@.take(n as int) =~= text@);
    }
    Some(value)
}

/// The text of a number is canonical and writes that number.
pub proof fn lemma_amount_text_is_canonical(value: nat)
    ensures
        is_canonical(amount_text(value)),
        digits_value(amount_text(value)) == value,
        value > 0 ==> amount_text(value)[0] != DIGIT_ZERO,
    decreases value,
{
    let text = amount_text(value);
    if value < 10 {
        assert(text.drop_last() =~= Seq::<u8>::empty());
        assert(digits_value(text.drop_last()) == 0);
    } else {
        lemma_amount_text_is_canonical(value / 10);
        assert(text.drop_last() =~= amount_text(value / 10));
    }
}

/// Every amount is read back from its text.
pub proof fn theorem_amount_round_trip(value: u128)
    ensures
        parse_amount(amount_text(value as nat)) == Some(value),
{
    lemma_amount_text_is_canonical(value as nat);
}

/// An amount has one text: whatever is read as an amount is the text of
/// that amount.
pub proof fn theorem_amount_text_is_unique(text: Seq<u8>)
    requires
        is_canonical(text),
    ensures
        amount_text(digits_value(text)) == text,
    decreases text.len(),
{
    if text.len() == 1 {
        assert(text.drop_last() =~= Seq::<u8>::empty());
        assert(digits_value(text.drop_last()) == 0);
        assert(amount_text(digits_value(text)) =~= text);
    } else {
        let front = text.drop_last();
        theorem_amount_text_is_unique(front);
        lemma_prefix_value(front, 1);
        assert(front.take(1).drop_last() =~= Seq::<u8>::empty());
        assert(digits_value(front.take(1).drop_last()) == 0);
        assert(front.take(1).last() == text[0]);
        assert(digits_value(front) >= 1);
        assert(amount_text(digits_value(text)) =~= text);
    }
}

} // verus!
