//! Decimal notation: the text of a number, and the number that a text denotes.

use vstd::prelude::*;
use crate::text::{chars_of, string_of};

verus! {

/// The character that writes the digit `d`.
pub open spec fn digit_char(d: nat) -> char {
    if d == 0 {
        '0'
    } else if d == 1 {
        '1'
    } else if d == 2 {
        '2'
    } else if d == 3 {
        '3'
    } else if d == 4 {
        '4'
    } else if d == 5 {
        '5'
    } else if d == 6 {
        '6'
    } else if d == 7 {
        '7'
    } else if d == 8 {
        '8'
    } else {
        '9'
    }
}

/// Whether `c` is one of the ten ASCII digits.
pub open spec fn is_digit(c: char) -> bool {
    c == '0' || c == '1' || c == '2' || c == '3' || c == '4' || c == '5' || c == '6' || c == '7'
        || c == '8' || c == '9'
}

/// The digit that `c` writes; 0 for a character that is no digit.
pub open spec fn digit_value(c: char) -> nat {
    if c == '1' {
        1
    } else if c == '2' {
        2
    } else if c == '3' {
        3
    } else if c == '4' {
        4
    } else if c == '5' {
        5
    } else if c == '6' {
        6
    } else if c == '7' {
        7
    } else if c == '8' {
        8
    } else if c == '9' {
        9
    } else {
        0
    }
}

/// Whether every character of `s` is a digit.
pub open spec fn all_digits(s: Seq<char>) -> bool {
    forall|i: int| 0 <= i < s.len() ==> is_digit(#[trigger] s[i])
}

/// The decimal notation of `n`, most significant digit first, without
/// leading zeros.
pub open spec fn decimal_digits(n: nat) -> Seq<char>
    decreases n,
{
    if n < 10 {
        seq![digit_char(n)]
    } else {
        decimal_digits(n / 10).push(digit_char(n % 10))
    }
}

/// The decimal notation of `i`: a minus sign before the digits of a negative
/// number, no sign otherwise.
pub open spec fn signed_decimal(i: int) -> Seq<char> {
    if i < 0 {
        seq!['-'] + decimal_digits((-i) as nat)
    } else {
        decimal_digits(i as nat)
    }
}

/// The number that a run of digits denotes. Leading zeros are allowed.
pub open spec fn digits_value(s: Seq<char>) -> nat
    decreases s.len(),
{
    if s.len() == 0 {
        0
    } else {
        digits_value(s.drop_last()) * 10 + digit_value(s.last())
    }
}

/// The integer that `s` denotes: an optional sign, then at least one digit
/// and nothing else. A minus sign is read only where `signed` is set.
pub open spec fn integer_value(s: Seq<char>, signed: bool) -> Option<int> {
    if s.len() == 0 {
        None
    } else {
        let negative = signed && s[0] == '-';
        let digits = if s[0] == '+' || negative {
            s.skip(1)
        } else {
            s
        };
        if digits.len() == 0 || !all_digits(digits) {
            None
        } else if negative {
            Some(-(digits_value(digits) as int))
        } else {
            Some(digits_value(digits) as int)
        }
    }
}

/// The value of `s` as an `i64`: `s` denotes an integer, and it is in range.
pub open spec fn i64_value(s: Seq<char>) -> Option<i64> {
    match integer_value(s, true) {
        Some(v) => if i64::MIN <= v <= i64::MAX {
            Some(v as i64)
        } else {
            None
        },
        None => None,
    }
}

/// The value of `s` as a `usize`: `s` denotes an integer without a minus
/// sign, and it is in range.
pub open spec fn usize_value(s: Seq<char>) -> Option<usize> {
    match integer_value(s, false) {
        Some(v) => if v <= usize::MAX {
            Some(v as usize)
        } else {
            None
        },
        None => None,
    }
}

/// A decimal notation is never empty and holds digits only.
pub proof fn lemma_decimal_digits_are_digits(n: nat)
    ensures
        decimal_digits(n).len() >= 1,
        all_digits(decimal_digits(n)),
    decreases n,
{
    if n >= 10 {
        lemma_decimal_digits_are_digits(n / 10);
    }
}

/// Reading a decimal notation gives the number back.
pub proof fn lemma_digits_value_of_decimal(n: nat)
    ensures
        digits_value(decimal_digits(n)) == n,
    decreases n,
{
    if n < 10 {
        let s = decimal_digits(n);
        assert(digits_value(s.drop_last()) == 0);
    } else {
        lemma_digits_value_of_decimal(n / 10);
        let s = decimal_digits(n);
        assert(s.drop_last() =~= decimal_digits(n / 10));
    }
}

/// Two different numbers have different decimal notations.
pub proof fn lemma_decimal_digits_injective(a: nat, b: nat)
    requires
        a != b,
    ensures
        decimal_digits(a) != decimal_digits(b),
{
    lemma_digits_value_of_decimal(a);
    lemma_digits_value_of_decimal(b);
}

/// Reading the notation of an integer gives the integer back.
pub proof fn lemma_integer_value_of_signed_decimal(i: int)
    ensures
        integer_value(signed_decimal(i), true) == Some(i),
{
    if i < 0 {
        let d = decimal_digits((-i) as nat);
        lemma_decimal_digits_are_digits((-i) as nat);
        lemma_digits_value_of_decimal((-i) as nat);
        assert(signed_decimal(i).skip(1) =~= d);
    } else {
        lemma_decimal_digits_are_digits(i as nat);
        lemma_digits_value_of_decimal(i as nat);
    }
}

/// Reading the notation of an `i64` as an `i64` gives it back.
pub proof fn lemma_i64_value_of_signed_decimal(i: i64)
    ensures
        i64_value(signed_decimal(i as int)) == Some(i),
{
    lemma_integer_value_of_signed_decimal(i as int);
}

fn digit_of(d: u8) -> (c: char)
    requires
        d < 10,
    ensures
        c == digit_char(d as nat),
{
    if d == 0 {
        '0'
    } else if d == 1 {
        '1'
    } else if d == 2 {
        '2'
    } else if d == 3 {
        '3'
    } else if d == 4 {
        '4'
    } else if d == 5 {
        '5'
    } else if d == 6 {
        '6'
    } else if d == 7 {
        '7'
    } else if d == 8 {
        '8'
    } else {
        '9'
    }
}

fn value_of_digit(c: char) -> (r: Option<u8>)
    ensures
        r is Some <==> is_digit(c),
        r matches Some(d) ==> d == digit_value(c) && d < 10,
{
    if c == '0' {
        Some(0)
    } else if c == '1' {
        Some(1)
    } else if c == '2' {
        Some(2)
    } else if c == '3' {
        Some(3)
    } else if c == '4' {
        Some(4)
    } else if c == '5' {
        Some(5)
    } else if c == '6' {
        Some(6)
    } else if c == '7' {
        Some(7)
    } else if c == '8' {
        Some(8)
    } else if c == '9' {
        Some(9)
    } else {
        None
    }
}

/// Appends the decimal notation of `n` to `out`.
fn push_decimal(out: &mut Vec<char>, n: u128)
    ensures
        final(out)@ == old(out)@ + decimal_digits(n as nat),
{
    // The digits, least significant first.
    let mut low_first: Vec<char> = Vec::new();
    let ghost mut tail: Seq<char> = Seq::empty();
    let mut m: u128 = n;
    loop
        invariant_except_break
            decimal_digits(n as nat) == decimal_digits(m as nat) + tail,
        invariant
            low_first@.len() == tail.len(),
            forall|j: int| 0 <= j < tail.len() ==> low_first@[j] == tail[tail.len() - 1 - j],
        ensures
            decimal_digits(n as nat) == tail,
        decreases m,
    {
        let c = digit_of((m % 10) as u8);
        low_first.push(c);
        proof {
            tail = seq![c] + tail;
        }
        if m < 10 {
            break ;
        }
        m = m / 10;
    }
    let mut k: usize = low_first.len();
    while k > 0
        invariant
            k <= low_first.len(),
            low_first@.len() == tail.len(),
            forall|j: int| 0 <= j < tail.len() ==> low_first@[j] == tail[tail.len() - 1 - j],
            out@ == old(out)@ + tail.take(tail.len() - k),
        decreases k,
    {
        k -= 1;
        out.push(low_first[k]);
    }
}

/// The decimal notation of `n`.
pub fn render_u128(n: u128) -> (s: String)
    ensures
        s@ == decimal_digits(n as nat),
{
    let mut out: Vec<char> = Vec::new();
    push_decimal(&mut out, n);
    string_of(&out)
}

/// The decimal notation of `i`.
pub fn render_i64(i: i64) -> (s: String)
    ensures
        s@ == signed_decimal(i as int),
{
    let mut out: Vec<char> = Vec::new();
    if i < 0 {
        out.push('-');
        let magnitude: u128 = (-(i as i128)) as u128;
        push_decimal(&mut out, magnitude);
    } else {
        push_decimal(&mut out, i as u128);
    }
    string_of(&out)
}

/// Reads `digits[from..]` as a run of digits. Gives `None` where the run is
/// empty or holds another character, and otherwise the number, or `limit + 1`
/// in place of any number above `limit`.
fn read_digits(digits: &Vec<char>, from: usize, limit: u128) -> (r: Option<u128>)
    requires
        from <= digits.len(),
        limit <= u64::MAX,
    ensures
        r is Some <==> from < digits.len() && all_digits(digits@.skip(from as int)),
        r matches Some(v) ==> {
            let exact = digits_value(digits@.skip(from as int));
            if exact <= limit {
                v == exact
            } else {
                v == limit + 1
            }
        },
{
    if from == digits.len() {
        return None;
    }
    let ghost run = digits@.skip(from as int);
    let mut acc: u128 = 0;
    let mut i: usize = from;
    while i < digits.len()
        invariant
            from <= i <= digits.len(),
            from < digits.len(),
            limit <= u64::MAX,
            run == digits@.skip(from as int),
            all_digits(run.take(i - from)),
            acc <= limit + 1,
            digits_value(run.take(i - from)) <= limit ==> acc == digits_value(run.take(i - from)),
            digits_value(run.take(i - from)) > limit ==> acc == limit + 1,
        decreases digits.len() - i,
    {
        let ghost before = run.take(i - from);
        let ghost after = run.take(i - from + 1);
        assert(after.drop_last() =~= before);
        match value_of_digit(digits[i]) {
            None => {
                assert(!is_digit(run[i - from]));
                return None;
            },
            Some(d) => {
                assert(all_digits(after)) by {
                    assert forall|j: int| 0 <= j < after.len() implies is_digit(
                        #[trigger] after[j],
                    ) by {}
                }
                if acc <= limit {
                    let next: u128 = acc * 10 + d as u128;
                    acc = if next <= limit {
                        next
                    } else {
                        limit + 1
                    };
                }
            },
        }
        i += 1;
    }
    assert(run.take(run.len() as int) =~= run);
    Some(acc)
}

/// Reads `v` as an `i64` in decimal notation.
pub fn parse_i64(v: &str) -> (r: Option<i64>)
    ensures
        r == i64_value(v@),
{
    let chars = chars_of(v);
    if chars.len() == 0 {
        return None;
    }
    let negative = chars[0] == '-';
    let from: usize = if chars[0] == '+' || negative {
        1
    } else {
        0
    };
    assert(chars@.skip(0) =~= chars@);
    match read_digits(&chars, from, 0x8000_0000_0000_0000) {
        None => None,
        Some(magnitude) => {
            if negative {
                if magnitude <= 0x8000_0000_0000_0000 {
                    Some((-(magnitude as i128)) as i64)
                } else {
                    None
                }
            } else if magnitude < 0x8000_0000_0000_0000 {
                Some(magnitude as i64)
            } else {
                None
            }
        },
    }
}

/// Reads `v` as a `usize` in decimal notation.
pub fn parse_usize(v: &str) -> (r: Option<usize>)
    ensures
        r == usize_value(v@),
{
    let chars = chars_of(v);
    if chars.len() == 0 {
        return None;
    }
    let from: usize = if chars[0] == '+' {
        1
    } else {
        0
    };
    assert(chars@.skip(0) =~= chars@);
    match read_digits(&chars, from, usize::MAX as u128) {
        None => None,
        Some(value) => {
            if value <= usize::MAX as u128 {
                Some(value as usize)
            } else {
                None
            }
        },
    }
}

} // verus!
