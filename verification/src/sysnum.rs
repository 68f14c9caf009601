//! The number at the end of a device name.
//!
//! Devices of one kind are told apart by a number that closes their name:
//! `wlan0`, `usb12`. The number is the longest run of the digits `0` to `9`
//! that ends the name. It is read in base ten, and a run that is too long
//! for sixty-four bits is no number.
//!
//! The registry finds the run by walking back from the end of the name, and
//! it gives the name no number if the walk gets as far as the first
//! character. So at least two characters have to stand before the run:
//! `ab1` has the number 1, while `a1` and `11` have none. The rule here is
//! the same, so that a name has the number here that it has there.

use vstd::prelude::*;
use vstd::string::*;

verus! {

/// Whether a character is one of the ten digits.
pub open spec fn is_digit(c: char) -> bool {
    '0' <= c && c <= '9'
}

/// Where the run of digits that ends `name` starts: the length of the name
/// where it ends in no digit.
pub open spec fn digits_start(name: Seq<char>) -> int
    decreases name.len(),
{
    if name.len() > 0 && is_digit(name.last()) {
        digits_start(name.drop_last())
    } else {
        name.len() as int
    }
}

/// The number that a run of digits writes in base ten.
pub open spec fn decimal(digits: Seq<char>) -> nat
    decreases digits.len(),
{
    if digits.len() == 0 {
        0
    } else {
        (decimal(digits.drop_last()) * 10 + (digits.last() as int - '0' as int)) as nat
    }
}

/// The number that closes `name`, if it has one: what the run of digits at
/// its end writes, where at least two characters stand before the run and
/// the number fits.
pub open spec fn sysnum_of(name: Seq<char>) -> Option<u64> {
    let start = digits_start(name);
    if 2 <= start < name.len() && decimal(name.skip(start)) <= u64::MAX {
        Some(decimal(name.skip(start)) as u64)
    } else {
        None
    }
}

/// A run of digits writes at least what any of its beginnings writes.
proof fn lemma_decimal_grows(digits: Seq<char>, k: int)
    requires
        0 <= k <= digits.len(),
        forall|i: int| 0 <= i < digits.len() ==> is_digit(digits[i]),
    ensures
        decimal(digits.take(k)) <= decimal(digits),
    decreases digits.len(),
{
    if k == digits.len() {
        assert(digits.take(k) =~= digits);
    } else {
        let shorter = digits.drop_last();
        assert(shorter.take(k) =~= digits.take(k));
        lemma_decimal_grows(shorter, k);
    }
}

/// Whether a character is one of the ten digits.
fn digit(c: char) -> (value: Option<u64>)
    ensures
        match value {
            Some(value) => is_digit(c) && value == c as int - '0' as int,
            None => !is_digit(c),
        },
{
    if '0' <= c && c <= '9' {
        Some((c as u32 - '0' as u32) as u64)
    } else {
        None
    }
}

/// Reads the number that closes a device name.
pub fn parse_sysnum(name: &str) -> (number: Option<u64>)
    ensures
        number == sysnum_of(name@),
{
    let len = name.unicode_len();
    let mut start: usize = len;
    assert(name@.take(len as int) =~= name@);
    while start > 0 && digit(name.get_char(start - 1)).is_some()
        invariant
            start <= len,
            len == name@.len(),
            digits_start(name@) == digits_start(name@.take(start as int)),
            forall|i: int| start <= i < len ==> is_digit(name@[i]),
        decreases start,
    {
        assert(name@.take(start as int).drop_last() =~= name@.take(start - 1));
        start = start - 1;
    }
    if start < 2 || start == len {
        return None;
    }
    let ghost digits = name@.skip(start as int);
    let mut value: u64 = 0;
    let mut i: usize = start;
    while i < len
        invariant
            2 <= start <= i <= len,
            start < len,
            len == name@.len(),
            digits_start(name@) == start,
            digits == name@.skip(start as int),
            forall|k: int| 0 <= k < digits.len() ==> is_digit(digits[k]),
            value == decimal(digits.take(i - start)),
        decreases len - i,
    {
        let c = name.get_char(i);
        assert(digits[i - start] == c);
        let d = match digit(c) {
            Some(d) => d,
            None => {
                return None;
            },
        };
        assert(digits.take(i - start + 1).drop_last() =~= digits.take(i - start));
        proof {
            lemma_decimal_grows(digits, i - start + 1);
        }
        let shifted = match value.checked_mul(10) {
            Some(shifted) => shifted,
            None => {
                return None;
            },
        };
        value = match shifted.checked_add(d) {
            Some(sum) => sum,
            None => {
                return None;
            },
        };
        i = i + 1;
    }
    assert(digits.take(len - start) =~= digits);
    Some(value)
}

} // verus!
