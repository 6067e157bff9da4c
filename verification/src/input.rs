//! What a line typed at the console means: surrounding whitespace does not
//! count, and a line that is no number of the kind asked for means nothing.

use crate::decimal::{number_in, parse_digits, parse_unsigned, unsigned_in};
use crate::price::{price_of_text, Price};
use crate::text::{to_chars, trimmed};
use vstd::prelude::*;

verus! {

/// What `s` denotes as a number from -2147483648 to 2147483647: digits,
/// which a single `+` or `-` may precede.
pub open spec fn signed_in(s: Seq<char>) -> Option<int> {
    if s.len() > 0 && s[0] == '-' {
        match number_in(s.drop_first(), 0x8000_0000) {
            Some(n) => Some(-(n as int)),
            None => None,
        }
    } else {
        match unsigned_in(s, 0x7fff_ffff) {
            Some(n) => Some(n as int),
            None => None,
        }
    }
}

/// Reads `chars` as a number that fits `i32`.
pub fn parse_signed(chars: &Vec<char>) -> (r: Option<i32>)
    ensures
        match signed_in(chars@) {
            Some(n) => r == Some(n as i32),
            None => r is None,
        },
{
    if chars.len() > 0 && chars[0] == '-' {
        assert(chars@.subrange(1, chars.len() as int) =~= chars@.drop_first());
        match parse_digits(chars, 1, chars.len(), 0x8000_0000) {
            Some(n) => Some((0 - n as i64) as i32),
            None => None,
        }
    } else {
        match parse_unsigned(chars, 0x7fff_ffff) {
            Some(n) => Some(n as i32),
            None => None,
        }
    }
}

/// The text of a line: the line without the whitespace around it.
pub fn read_text(line: &str) -> (text: String)
    ensures
        text@ == trimmed(line@),
{
    line.trim().to_owned()
}

/// The whole number that a line holds, if it holds one that fits `i32`.
pub fn read_number(line: &str) -> (r: Option<i32>)
    ensures
        match signed_in(trimmed(line@)) {
            Some(n) => r == Some(n as i32),
            None => r is None,
        },
{
    let chars = to_chars(line.trim());
    parse_signed(&chars)
}

/// The price that a line holds, if it holds one.
pub fn read_price(line: &str) -> (r: Option<Price>)
    ensures
        match price_of_text(trimmed(line@)) {
            Some(h) => r == Some(Price { hundredths: h as u64 }),
            None => r is None,
        },
{
    Price::parse(line.trim())
}

/// The number of items that a line holds, if it holds one that fits `u32`.
pub fn read_quantity(line: &str) -> (r: Option<u32>)
    ensures
        match unsigned_in(trimmed(line@), u32::MAX as nat) {
            Some(n) => r == Some(n as u32),
            None => r is None,
        },
{
    let chars = to_chars(line.trim());
    match parse_unsigned(&chars, 0xffff_ffff) {
        Some(n) => Some(n as u32),
        None => None,
    }
}

/// The display position that a line holds, if it holds one that fits
/// `usize`.
pub fn read_position(line: &str) -> (r: Option<usize>)
    ensures
        match unsigned_in(trimmed(line@), usize::MAX as nat) {
            Some(n) => r == Some(n as usize),
            None => r is None,
        },
{
    let chars = to_chars(line.trim());
    match parse_unsigned(&chars, usize::MAX as u128) {
        Some(n) => Some(n as usize),
        None => None,
    }
}

} // verus!
