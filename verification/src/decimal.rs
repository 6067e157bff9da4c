//! Decimal notation for natural numbers: what a run of digits denotes, how a
//! number is written, and the proof that reading undoes writing.

use vstd::prelude::*;

verus! {

/// Largest bound that `parse_digits` accepts: one more digit can always be
/// appended to a value below it without leaving `u128`.
pub const MAX_DIGITS_LIMIT: u128 = 0xffff_ffff_ffff_ffff_ffff_ffff;

pub open spec fn is_digit(c: char) -> bool {
    '0' <= c && c <= '9'
}

/// The number that the digit `c` stands for.
pub open spec fn digit_value(c: char) -> nat {
    (c as u32 - '0' as u32) as nat
}

/// The digit that stands for `d`, for `d < 10`.
pub open spec fn digit_char(d: nat) -> char {
    if d == 0 {
        '0'
    } else if d == 1 {
        '1'
    } else if d == 2 {
        '2'
    } else if d == 3 {
        '3'
    } else if d == 4 {
        '4'
    } else if d == 5 {
        '5'
    } else if d == 6 {
        '6'
    } else if d == 7 {
        '7'
    } else if d == 8 {
        '8'
    } else {
        '9'
    }
}

pub open spec fn all_digits(s: Seq<char>) -> bool {
    forall|i: int| 0 <= i < s.len() ==> is_digit(#[trigger] s[i])
}

/// The number that the digits of `s` denote, most significant digit first.
pub open spec fn digits_value(s: Seq<char>) -> nat
    decreases s.len(),
{
    if s.len() == 0 {
        0
    } else {
        digits_value(s.drop_last()) * 10 + digit_value(s.last())
    }
}

/// What `s` denotes as a number no greater than `limit`: one or more digits
/// and nothing else.
pub open spec fn number_in(s: Seq<char>, limit: nat) -> Option<nat> {
    if s.len() > 0 && all_digits(s) && digits_value(s) <= limit {
        Some(digits_value(s))
    } else {
        None
    }
}

/// What `s` denotes as an unsigned number no greater than `limit`: digits,
/// which a single `+` may precede.
pub open spec fn unsigned_in(s: Seq<char>, limit: nat) -> Option<nat> {
    if s.len() > 0 && s[0] == '+' {
        number_in(s.drop_first(), limit)
    } else {
        number_in(s, limit)
    }
}

/// The shortest decimal notation of `n`.
pub open spec fn digits_of(n: nat) -> Seq<char>
    decreases n,
{
    if n < 10 {
        seq![digit_char(n)]
    } else {
        digits_of(n / 10).push(digit_char(n % 10))
    }
}

/// Appending digits never makes the denoted number smaller.
pub proof fn lemma_value_grows(s: Seq<char>, k: int)
    requires
        0 <= k <= s.len(),
    ensures
        digits_value(s.take(k)) <= digits_value(s),
    decreases s.len(),
{
    if k == s.len() {
        assert(s.take(k) =~= s);
    } else {
        lemma_value_grows(s.drop_last(), k);
        assert(s.drop_last().take(k) =~= s.take(k));
    }
}

/// Reading the notation of `n` gives `n` back.
pub proof fn lemma_digits_of(n: nat)
    ensures
        digits_of(n).len() >= 1,
        all_digits(digits_of(n)),
        digits_value(digits_of(n)) == n,
    decreases n,
{
    if n < 10 {
        let s = digits_of(n);
        assert(s.drop_last() =~= Seq::<char>::empty());
        assert(digits_value(s.drop_last()) == 0);
        assert(digit_value(digit_char(n)) == n);
    } else {
        lemma_digits_of(n / 10);
        let s = digits_of(n);
        assert(s.drop_last() =~= digits_of(n / 10));
        assert(digit_value(digit_char(n % 10)) == n % 10);
    }
}

/// The digit for `d`.
pub fn digit_for(d: u8) -> (c: char)
    requires
        d < 10,
    ensures
        c == digit_char(d as nat),
{
    if d == 0 {
        '0'
    } else if d == 1 {
        '1'
    } else if d == 2 {
        '2'
    } else if d == 3 {
        '3'
    } else if d == 4 {
        '4'
    } else if d == 5 {
        '5'
    } else if d == 6 {
        '6'
    } else if d == 7 {
        '7'
    } else if d == 8 {
        '8'
    } else {
        '9'
    }
}

/// Appends the decimal notation of `n` to `out`.
pub fn push_digits(n: u128, out: &mut Vec<char>)
    ensures
        final(out)@ == old(out)@ + digits_of(n as nat),
    decreases n,
{
    if n < 10 {
        out.push(digit_for(n as u8));
        assert(out@ =~= old(out)@ + digits_of(n as nat));
    } else {
        push_digits(n / 10, out);
        out.push(digit_for((n % 10) as u8));
        assert(out@ =~= old(out)@ + digits_of(n as nat));
    }
}

/// Reads `chars[from..to]` as a number no greater than `limit`.
pub fn parse_digits(chars: &Vec<char>, from: usize, to: usize, limit: u128) -> (r: Option<u128>)
    requires
        from <= to <= chars.len(),
        limit <= MAX_DIGITS_LIMIT,
    ensures
        match number_in(chars@.subrange(from as int, to as int), limit as nat) {
            Some(n) => r == Some(n as u128),
            None => r is None,
        },
{
    let ghost s = chars@.subrange(from as int, to as int);
    if from == to {
        return None;
    }
    let mut acc: u128 = 0;
    let mut i: usize = from;
    while i < to
        invariant
            from <= i <= to <= chars.len(),
            limit <= MAX_DIGITS_LIMIT,
            s == chars@.subrange(from as int, to as int),
            all_digits(s.take(i - from)),
            acc as nat == digits_value(s.take(i - from)),
            acc <= limit,
        decreases to - i,
    {
        let c = chars[i];
        let ghost k = i - from;
        proof {
            assert(s.take(k + 1).drop_last() =~= s.take(k));
            assert(s.take(k + 1).last() == c);
        }
        if c < '0' || c > '9' {
            assert(!is_digit(s[k]));
            return None;
        }
        let d: u128 = (c as u32 - '0' as u32) as u128;
        let next: u128 = acc * 10 + d;
        if next > limit {
            proof {
                lemma_value_grows(s, k + 1);
            }
            return None;
        }
        proof {
            assert forall|j: int| 0 <= j < k + 1 implies is_digit(#[trigger] s.take(k + 1)[j]) by {
                if j < k {
                    assert(s.take(k + 1)[j] == s.take(k)[j]);
                }
            }
        }
        acc = next;
        i += 1;
    }
    proof {
        assert(s.take(to - from) =~= s);
    }
    Some(acc)
}

/// Whether `chars[from..to]` holds digits and nothing else.
pub fn only_digits(chars: &Vec<char>, from: usize, to: usize) -> (r: bool)
    requires
        from <= to <= chars.len(),
    ensures
        r == all_digits(chars@.subrange(from as int, to as int)),
{
    let ghost s = chars@.subrange(from as int, to as int);
    let mut i: usize = from;
    while i < to
        invariant
            from <= i <= to <= chars.len(),
            s == chars@.subrange(from as int, to as int),
            forall|j: int| 0 <= j < i - from ==> is_digit(#[trigger] s[j]),
        decreases to - i,
    {
        let c = chars[i];
        if c < '0' || c > '9' {
            assert(!is_digit(s[i - from]));
            return false;
        }
        i += 1;
    }
    true
}

/// Reads `chars` as an unsigned number no greater than `limit`.
pub fn parse_unsigned(chars: &Vec<char>, limit: u128) -> (r: Option<u128>)
    requires
        limit <= MAX_DIGITS_LIMIT,
    ensures
        match unsigned_in(chars@, limit as nat) {
            Some(n) => r == Some(n as u128),
            None => r is None,
        },
{
    if chars.len() > 0 && chars[0] == '+' {
        assert(chars@.subrange(1, chars.len() as int) =~= chars@.drop_first());
        parse_digits(chars, 1, chars.len(), limit)
    } else {
        assert(chars@.subrange(0, chars.len() as int) =~= chars@);
        parse_digits(chars, 0, chars.len(), limit)
    }
}

/// A number written with `digits_of` is read back unchanged, under any
/// limit that admits it.
pub proof fn lemma_unsigned_round_trip(n: nat, limit: nat)
    requires
        n <= limit,
    ensures
        unsigned_in(digits_of(n), limit) == Some(n),
{
    lemma_digits_of(n);
    let s = digits_of(n);
    assert(is_digit(s[0]));
}

} // verus!
