//! Reading a sample out of the text a thermal sensor exposes.
//!
//! The text is a decimal integer, thousandths of a degree, optionally signed
//! and surrounded by ASCII white space: `46251\n` is 46.251 degrees. Anything
//! else is an error the control loop can recover from by skipping the tick.

use vstd::prelude::*;
use crate::reading::{SensorReading, Unit};

verus! {

/// Why a sensor text did not yield a sample.
#[derive(Clone, Copy, Debug, PartialEq, Eq, Structural)]
pub enum SensorError {
    /// Nothing but white space.
    Empty,
    /// Not an optionally signed run of decimal digits.
    Malformed,
    /// A number, but not one an `i64` holds.
    OutOfRange,
}

/// ASCII white space: space, tab, line feed, vertical tab, form feed, carriage return.
pub open spec fn is_space(byte: u8) -> bool {
    byte == 0x20 || 0x09 <= byte <= 0x0d
}

/// ASCII decimal digit.
pub open spec fn is_digit(byte: u8) -> bool {
    0x30 <= byte <= 0x39
}

/// Index of the first byte at or after `from` that is not white space, or the
/// length if there is none.
pub open spec fn first_non_space(bytes: Seq<u8>, from: int) -> int
    decreases bytes.len() - from,
{
    if 0 <= from < bytes.len() && is_space(bytes[from]) {
        first_non_space(bytes, from + 1)
    } else {
        from
    }
}

/// One past the last byte before `to` and not before `from` that is not white
/// space, or `from` if there is none.
pub open spec fn last_non_space(bytes: Seq<u8>, from: int, to: int) -> int
    decreases to,
{
    if from < to <= bytes.len() && 0 <= from && is_space(bytes[to - 1]) {
        last_non_space(bytes, from, to - 1)
    } else {
        to
    }
}

/// The input without its leading and trailing white space.
pub open spec fn trimmed(bytes: Seq<u8>) -> Seq<u8> {
    let start = first_non_space(bytes, 0);
    let end = last_non_space(bytes, start, bytes.len() as int);
    bytes.subrange(start, end)
}

/// Whether every byte is a decimal digit.
pub open spec fn all_digits(digits: Seq<u8>) -> bool {
    forall|i: int| 0 <= i < digits.len() ==> is_digit(#[trigger] digits[i])
}

/// The number a run of decimal digits denotes, most significant digit first.
pub open spec fn digits_value(digits: Seq<u8>) -> nat
    decreases digits.len(),
{
    if digits.len() == 0 {
        0
    } else {
        digits_value(digits.drop_last()) * 10 + (digits.last() - 0x30) as nat
    }
}

/// Whether the trimmed text begins with a sign.
pub open spec fn has_sign(text: Seq<u8>) -> bool {
    text.len() > 0 && (text[0] == 0x2d || text[0] == 0x2b)
}

/// The value a sensor text denotes, or why it denotes none.
pub open spec fn parse_spec(bytes: Seq<u8>) -> Result<int, SensorError> {
    let text = trimmed(bytes);
    let digits = if has_sign(text) {
        text.drop_first()
    } else {
        text
    };
    let magnitude = digits_value(digits) as int;
    let value = if has_sign(text) && text[0] == 0x2d {
        -magnitude
    } else {
        magnitude
    };
    if text.len() == 0 {
        Err(SensorError::Empty)
    } else if digits.len() == 0 || !all_digits(digits) {
        Err(SensorError::Malformed)
    } else if value < i64::MIN || value > i64::MAX {
        Err(SensorError::OutOfRange)
    } else {
        Ok(value)
    }
}

/// A prefix of a run of digits denotes no more than the whole run.
pub proof fn lemma_prefix_value_bounded(digits: Seq<u8>, count: int)
    requires
        0 <= count <= digits.len(),
    ensures
        digits_value(digits.take(count)) <= digits_value(digits),
    decreases digits.len(),
{
    if count == digits.len() {
        assert(digits.take(count) =~= digits);
    } else {
        let shorter = digits.drop_last();
        lemma_prefix_value_bounded(shorter, count);
        assert(shorter.take(count) =~= digits.take(count));
    }
}

fn is_space_byte(byte: u8) -> (space: bool)
    ensures
        space == is_space(byte),
{
    byte == 0x20 || (0x09 <= byte && byte <= 0x0d)
}

fn is_digit_byte(byte: u8) -> (digit: bool)
    ensures
        digit == is_digit(byte),
{
    0x30 <= byte && byte <= 0x39
}

/// Parses a sensor text into the integer it denotes.
///
/// Succeeds exactly on an optional sign followed by one or more decimal
/// digits, surrounded by any amount of ASCII white space, whose value fits
/// an `i64`. Blank input is `Empty`; any other shape is `Malformed`; a
/// well-shaped number that does not fit is `OutOfRange`.
#[verifier::loop_isolation(false)]
pub fn parse_value(bytes: &[u8]) -> (parsed: Result<i64, SensorError>)
    ensures
        match parsed {
            Ok(value) => parse_spec(bytes@) == Ok::<int, SensorError>(value as int),
            Err(error) => parse_spec(bytes@) == Err::<int, SensorError>(error),
        },
{
    let ghost all = bytes@;
    let mut start: usize = 0;
    while start < bytes.len() && is_space_byte(bytes[start])
        invariant
            start <= bytes.len(),
            first_non_space(all, 0) == first_non_space(all, start as int),
            all == bytes@,
        decreases bytes.len() - start,
    {
        start += 1;
    }
    let mut end: usize = bytes.len();
    while end > start && is_space_byte(bytes[end - 1])
        invariant
            start <= end <= bytes.len(),
            last_non_space(all, start as int, all.len() as int) == last_non_space(
                all,
                start as int,
                end as int,
            ),
            all == bytes@,
        decreases end,
    {
        end -= 1;
    }
    let ghost text = all.subrange(start as int, end as int);
    assert(text == trimmed(all));
    if start == end {
        return Err(SensorError::Empty);
    }
    let negative = bytes[start] == 0x2d;
    let signed = negative || bytes[start] == 0x2b;
    let first: usize = if signed {
        start + 1
    } else {
        start
    };
    let ghost digits = all.subrange(first as int, end as int);
    proof {
        assert(text[0] == all[start as int]);
        assert(signed == has_sign(text));
        if signed {
            assert(text.drop_first() =~= digits);
        }
    }
    if first == end {
        return Err(SensorError::Malformed);
    }
    let mut index: usize = first;
    while index < end
        invariant
            first <= index <= end <= bytes.len(),
            all == bytes@,
            digits == all.subrange(first as int, end as int),
            forall|k: int| 0 <= k < index - first ==> is_digit(#[trigger] digits[k]),
        decreases end - index,
    {
        if !is_digit_byte(bytes[index]) {
            proof {
                assert(digits[index - first] == all[index as int]);
                assert(!is_digit(digits[index - first]));
            }
            return Err(SensorError::Malformed);
        }
        index += 1;
    }
    assert(all_digits(digits));
    let limit: u128 = if negative {
        0x8000_0000_0000_0000
    } else {
        0x7fff_ffff_ffff_ffff
    };
    let mut magnitude: u128 = 0;
    index = first;
    proof {
        assert(digits.take(0) =~= Seq::<u8>::empty());
    }
    while index < end
        invariant
            first <= index <= end <= bytes.len(),
            all == bytes@,
            digits == all.subrange(first as int, end as int),
            all_digits(digits),
            magnitude == digits_value(digits.take(index - first)),
            magnitude <= limit,
            limit <= 0x8000_0000_0000_0000,
        decreases end - index,
    {
        proof {
            let longer = digits.take(index - first + 1);
            assert(longer.drop_last() =~= digits.take(index - first));
            assert(longer.last() == all[index as int]);
            assert(is_digit(digits[index - first]));
        }
        let digit: u8 = bytes[index] - 0x30;
        let wider: u128 = magnitude * 10 + digit as u128;
        if wider > limit {
            proof {
                lemma_prefix_value_bounded(digits, index - first + 1);
            }
            return Err(SensorError::OutOfRange);
        }
        magnitude = wider;
        index += 1;
    }
    proof {
        assert(digits.take(index - first) =~= digits);
    }
    if negative {
        if magnitude == 0x8000_0000_0000_0000 {
            Ok(i64::MIN)
        } else {
            Ok(-(magnitude as i64))
        }
    } else {
        Ok(magnitude as i64)
    }
}

/// Parses a sensor text into a temperature sample taken at `taken_at`.
pub fn read_millicelsius(bytes: &[u8], taken_at: u64) -> (sample: Result<
    SensorReading,
    SensorError,
>)
    ensures
        match sample {
            Ok(reading) => parse_spec(bytes@) == Ok::<int, SensorError>(reading.value as int)
                && reading.unit == Unit::MilliCelsius && reading.taken_at == taken_at,
            Err(error) => parse_spec(bytes@) == Err::<int, SensorError>(error),
        },
{
    match parse_value(bytes) {
        Ok(value) => Ok(SensorReading::millicelsius(value, taken_at)),
        Err(error) => Err(error),
    }
}

} // verus!
