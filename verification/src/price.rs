//! Prices and amounts of money as whole hundredths. They are written with
//! two decimals and read from any plain decimal notation; decimals beyond
//! the second are cut off.

use crate::decimal::{
    all_digits, digit_char, digit_for, digit_value, digits_of, digits_value, is_digit,
    lemma_digits_of, only_digits, parse_digits, push_digits,
};
use crate::text::{from_chars, to_chars};
use vstd::prelude::*;

verus! {

/// A unit price, counted in hundredths.
#[derive(Clone, Copy, Debug, PartialEq, Eq, Structural)]
pub struct Price {
    pub hundredths: u64,
}

/// An amount of `h` hundredths written out: the whole part, a point and two
/// decimals.
pub open spec fn money_text(h: nat) -> Seq<char> {
    digits_of(h / 100) + seq!['.', digit_char(h % 100 / 10), digit_char(h % 10)]
}

/// Where the decimal point of `s` stands: the index of its first `.`, or the
/// length of `s` where it has none.
pub open spec fn point_of(s: Seq<char>) -> int
    decreases s.len(),
{
    if s.len() == 0 || s[0] == '.' {
        0
    } else {
        1 + point_of(s.drop_first())
    }
}

/// `s` without the `+` that may stand in front of a number.
pub open spec fn unsigned_part(s: Seq<char>) -> Seq<char> {
    if s.len() > 0 && s[0] == '+' {
        s.drop_first()
    } else {
        s
    }
}

/// What stands before the decimal point of `s`.
pub open spec fn whole_of(s: Seq<char>) -> Seq<char> {
    s.take(point_of(s))
}

/// What stands after the decimal point of `s`; nothing where it has none.
pub open spec fn decimals_of(s: Seq<char>) -> Seq<char> {
    if point_of(s) < s.len() {
        s.skip(point_of(s) + 1)
    } else {
        Seq::empty()
    }
}

/// The hundredths that the digits before and after a decimal point make.
/// Decimals beyond the second do not count.
pub open spec fn hundredths_in(whole: Seq<char>, decimals: Seq<char>) -> nat {
    digits_value(whole) * 100 + (if decimals.len() >= 1 {
        digit_value(decimals[0]) * 10
    } else {
        0
    }) + (if decimals.len() >= 2 {
        digit_value(decimals[1])
    } else {
        0
    })
}

/// The hundredths that the text `s` denotes. A price is written as digits
/// with at most one decimal point among them, before them or after them, and
/// at least one digit; a `+` may stand in front. Such as `12`, `12.5`,
/// `12.50`, `.5`, `12.` and `+12.345`, which is 12.34.
pub open spec fn price_of_text(s: Seq<char>) -> Option<nat> {
    let body = unsigned_part(s);
    let whole = whole_of(body);
    let decimals = decimals_of(body);
    if whole.len() + decimals.len() > 0 && all_digits(whole) && all_digits(decimals)
        && hundredths_in(whole, decimals) <= u64::MAX {
        Some(hundredths_in(whole, decimals))
    } else {
        None
    }
}

/// The decimal point stands at `k` where no `.` stands before `k` and one
/// stands at `k`, or `s` ends there.
pub proof fn lemma_point_of(s: Seq<char>, k: int)
    requires
        0 <= k <= s.len(),
        forall|j: int| 0 <= j < k ==> s[j] != '.',
        k == s.len() || s[k] == '.',
    ensures
        point_of(s) == k,
    decreases k,
{
    if k > 0 {
        let rest = s.drop_first();
        assert forall|j: int| 0 <= j < k - 1 implies rest[j] != '.' by {
            assert(rest[j] == s[j + 1]);
        }
        lemma_point_of(rest, k - 1);
    }
}

/// An amount written with `money_text` is read back unchanged.
pub proof fn lemma_money_round_trip(h: nat)
    requires
        h <= u64::MAX,
    ensures
        price_of_text(money_text(h)) == Some(h),
{
    lemma_digits_of(h / 100);
    let whole = digits_of(h / 100);
    let s = money_text(h);
    assert(is_digit(whole[0]));
    assert(s[0] == whole[0]);
    assert(unsigned_part(s) == s);
    assert forall|j: int| 0 <= j < whole.len() implies s[j] != '.' by {
        assert(is_digit(whole[j]));
    }
    lemma_point_of(s, whole.len() as int);
    assert(whole_of(s) =~= whole);
    assert(decimals_of(s) =~= seq![digit_char(h % 100 / 10), digit_char(h % 10)]);
    assert(digit_value(digit_char(h % 100 / 10)) == h % 100 / 10);
    assert(digit_value(digit_char(h % 10)) == h % 10);
    assert(is_digit(digit_char(h % 100 / 10)) && is_digit(digit_char(h % 10)));
}

/// The notation of `amount` hundredths.
pub fn format_money(amount: u128) -> (out: Vec<char>)
    ensures
        out@ == money_text(amount as nat),
{
    let mut out: Vec<char> = Vec::new();
    push_digits(amount / 100, &mut out);
    out.push('.');
    out.push(digit_for((amount % 100 / 10) as u8));
    out.push(digit_for((amount % 10) as u8));
    assert(out@ =~= money_text(amount as nat));
    out
}

/// The number that the digit at `chars[at]` stands for; 0 past the end.
fn digit_at(chars: &Vec<char>, at: usize) -> (d: u128)
    requires
        at < chars.len() ==> is_digit(chars@[at as int]),
    ensures
        d == if at < chars.len() {
            digit_value(chars@[at as int])
        } else {
            0
        },
        d <= 9,
{
    if at < chars.len() {
        (chars[at] as u32 - '0' as u32) as u128
    } else {
        0
    }
}

/// Reads the notation of a price from `chars`.
pub fn parse_money(chars: &Vec<char>) -> (r: Option<u64>)
    ensures
        match price_of_text(chars@) {
            Some(h) => r == Some(h as u64),
            None => r is None,
        },
{
    let n = chars.len();
    let start: usize = if n > 0 && chars[0] == '+' {
        1
    } else {
        0
    };
    let ghost body = unsigned_part(chars@);
    assert(body =~= chars@.subrange(start as int, n as int));
    let mut point: usize = start;
    while point < n && chars[point] != '.'
        invariant
            start <= point <= n,
            n == chars.len(),
            forall|j: int| start <= j < point ==> chars@[j] != '.',
        decreases n - point,
    {
        point += 1;
    }
    proof {
        lemma_point_of(body, point - start);
    }
    let ghost whole = whole_of(body);
    let ghost decimals = decimals_of(body);
    assert(whole =~= chars@.subrange(start as int, point as int));
    let after: usize = if point < n {
        point + 1
    } else {
        n
    };
    assert(decimals =~= chars@.subrange(after as int, n as int));
    if point - start + (n - after) == 0 {
        return None;
    }
    if !only_digits(chars, after, n) {
        return None;
    }
    let limit: u128 = 184467440737095516;
    let w: u128 = if point == start {
        assert(digits_value(whole) == 0);
        0
    } else {
        match parse_digits(chars, start, point, limit) {
            Some(w) => w,
            None => {
                return None;
            },
        }
    };
    proof {
        if n - after >= 1 {
            assert(decimals[0] == chars@[after as int]);
            assert(is_digit(decimals[0]));
        }
        if n - after >= 2 {
            assert(decimals[1] == chars@[after + 1]);
            assert(is_digit(decimals[1]));
        }
    }
    let t = digit_at(chars, after);
    let u = if after < n {
        digit_at(chars, after + 1)
    } else {
        0
    };
    let total: u128 = w * 100 + t * 10 + u;
    assert(total == hundredths_in(whole, decimals));
    if total > 0xffff_ffff_ffff_ffff {
        None
    } else {
        Some(total as u64)
    }
}

impl Price {
    /// Reads a price as it is typed or stored, such as `12`, `12.5`,
    /// `12.50` or `.5`. Decimals beyond the second are cut off.
    pub fn parse(text: &str) -> (r: Option<Price>)
        ensures
            match price_of_text(text@) {
                Some(h) => r == Some(Price { hundredths: h as u64 }),
                None => r is None,
            },
    {
        let chars = to_chars(text);
        match parse_money(&chars) {
            Some(h) => Some(Price { hundredths: h }),
            None => None,
        }
    }

    /// The price written with two decimals.
    pub fn to_text(&self) -> (out: String)
        ensures
            out@ == money_text(self.hundredths as nat),
    {
        let chars = format_money(self.hundredths as u128);
        from_chars(&chars)
    }
}

} // verus!
