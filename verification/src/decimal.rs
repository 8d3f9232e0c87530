//! Decimal notation for amounts: how an integer is written, and which
//! integer a written amount denotes.

use vstd::prelude::*;

verus! {

/// The character that stands for the digit `d`.
pub open spec fn digit_char(d: int) -> char
    recommends
        0 <= d <= 9,
{
    (d + 48) as char
}

/// The digits of a natural number, most significant first, without leading
/// zeros; zero is written as a single `0`.
pub open spec fn nat_digits(n: nat) -> Seq<char>
    decreases n,
{
    if n < 10 {
        seq![digit_char(n as int)]
    } else {
        nat_digits(n / 10).push(digit_char((n % 10) as int))
    }
}

/// Decimal notation of an integer: the digits of its magnitude, after a
/// minus sign if it is negative.
pub open spec fn decimal(n: int) -> Seq<char> {
    if n < 0 {
        seq!['-'] + nat_digits((-n) as nat)
    } else {
        nat_digits(n as nat)
    }
}

/// The one-character string for a digit.
fn digit_str(d: u32) -> (s: &'static str)
    requires
        d < 10,
    ensures
        s@ == seq![digit_char(d as int)],
{
    proof {
        reveal_strlit("0");
        reveal_strlit("1");
        reveal_strlit("2");
        reveal_strlit("3");
        reveal_strlit("4");
        reveal_strlit("5");
        reveal_strlit("6");
        reveal_strlit("7");
        reveal_strlit("8");
        reveal_strlit("9");
    }
    match d {
        0 => "0",
        1 => "1",
        2 => "2",
        3 => "3",
        4 => "4",
        5 => "5",
        6 => "6",
        7 => "7",
        8 => "8",
        _ => "9",
    }
}

/// Appends the digits of `n` to `out`.
fn push_digits(out: &mut String, n: u32)
    ensures
        final(out)@ == old(out)@ + nat_digits(n as nat),
    decreases n,
{
    if n >= 10 {
        push_digits(out, n / 10);
    }
    out.append(digit_str(n % 10));
}

/// Writes `n` in decimal notation.
pub fn format_amount(n: i32) -> (text: String)
    ensures
        text@ == decimal(n as int),
{
    let mut text = String::new();
    if n < 0 {
        proof {
            reveal_strlit("-");
        }
        text.append("-");
        let magnitude: u32 = (-(n as i64)) as u32;
        push_digits(&mut text, magnitude);
    } else {
        push_digits(&mut text, n as u32);
    }
    text
}

/// Whether `c` is one of the ten decimal digits.
pub open spec fn is_digit(c: char) -> bool {
    '0' <= c <= '9'
}

/// Whether every character of `s` is a decimal digit.
pub open spec fn all_digits(s: Seq<char>) -> bool {
    forall|i: int| 0 <= i < s.len() ==> is_digit(#[trigger] s[i])
}

/// The number that a run of digits denotes; the empty run denotes zero.
pub open spec fn digits_value(s: Seq<char>) -> nat
    decreases s.len(),
{
    if s.len() == 0 {
        0
    } else {
        (digits_value(s.drop_last()) * 10 + (s.last() as int - 48)) as nat
    }
}

/// Whether `s` starts with a sign character.
pub open spec fn has_sign(s: Seq<char>) -> bool {
    s.len() > 0 && (s[0] == '-' || s[0] == '+')
}

/// What is left of `s` without its sign character, if it has one.
pub open spec fn unsigned_part(s: Seq<char>) -> Seq<char> {
    if has_sign(s) {
        s.skip(1)
    } else {
        s
    }
}

/// The integer that `s` denotes: an optional `+` or `-`, then one or more
/// decimal digits and nothing else. Any other text denotes no integer.
pub open spec fn denoted_integer(s: Seq<char>) -> Option<int> {
    let body = unsigned_part(s);
    if body.len() == 0 || !all_digits(body) {
        None
    } else if s[0] == '-' {
        Some(-(digits_value(body) as int))
    } else {
        Some(digits_value(body) as int)
    }
}

/// Whether `v` can be held in an `i32`.
pub open spec fn fits_i32(v: int) -> bool {
    i32::MIN <= v <= i32::MAX
}

/// The amount that `s` denotes, if it denotes an integer that fits in `i32`.
pub open spec fn denoted_amount(s: Seq<char>) -> Option<i32> {
    match denoted_integer(s) {
        Some(v) => if fits_i32(v) {
            Some(v as i32)
        } else {
            None
        },
        None => None,
    }
}

/// Appending digits never makes the denoted number smaller.
proof fn lemma_digits_value_prefix(s: Seq<char>, k: int)
    requires
        all_digits(s),
        0 <= k <= s.len(),
    ensures
        digits_value(s.take(k)) <= digits_value(s),
    decreases s.len() - k,
{
    if k < s.len() {
        lemma_digits_value_prefix(s, k + 1);
        assert(s.take(k + 1).drop_last() =~= s.take(k));
    } else {
        assert(s.take(k) =~= s);
    }
}

/// The digits of a number are digits, there is at least one of them, and
/// they denote that number.
pub proof fn lemma_nat_digits_denote(n: nat)
    ensures
        nat_digits(n).len() > 0,
        all_digits(nat_digits(n)),
        digits_value(nat_digits(n)) == n,
    decreases n,
{
    if n < 10 {
        assert(digits_value(nat_digits(n).drop_last()) == 0);
    } else {
        lemma_nat_digits_denote(n / 10);
        assert(nat_digits(n).drop_last() =~= nat_digits(n / 10));
    }
}

/// Reading the decimal notation of an integer gives that integer back.
pub proof fn lemma_decimal_denotes_itself(n: int)
    ensures
        denoted_integer(decimal(n)) == Some(n),
        fits_i32(n) ==> denoted_amount(decimal(n)) == Some(n as i32),
{
    if n < 0 {
        lemma_nat_digits_denote((-n) as nat);
        assert(decimal(n).skip(1) =~= nat_digits((-n) as nat));
    } else {
        lemma_nat_digits_denote(n as nat);
    }
}

/// Reads an amount written in decimal notation.
pub fn parse_amount(text: &str) -> (amount: Option<i32>)
    ensures
        amount == denoted_amount(text@),
{
    let mut signed = false;
    let mut negative = false;
    let mut value: i64 = 0;
    let mut digits: bool = false;
    for c in it: text.chars()
        invariant
            it.seq() == text@,
            signed == (it.index() > 0 && has_sign(text@)),
            negative == (signed && text@[0] == '-'),
            it.index() == 0 ==> !digits && value == 0,
            ({
                let from: int = if signed { 1 } else { 0 };
                let body = text@.subrange(from, it.index());
                &&& all_digits(body)
                &&& value == digits_value(body)
                &&& digits == (body.len() > 0)
            }),
            0 <= value <= 0x8000_0000,
    {
        let ghost i = it.index();
        let ghost from: int = if signed { 1 } else { 0 };
        let ghost body = text@.subrange(from, i);
        if !signed && !digits && (c == '+' || c == '-') {
            signed = true;
            negative = c == '-';
        } else if c >= '0' && c <= '9' {
            let d: i64 = (c as u32 - 48) as i64;
            value = value * 10 + d;
            digits = true;
            assert(text@.subrange(from, i + 1).drop_last() =~= body);
            if value > 0x8000_0000 {
                proof {
                    // Whatever follows, the number is already too large.
                    let whole = unsigned_part(text@);
                    assert(text@.subrange(from, i + 1) =~= whole.take(i + 1 - from));
                    if all_digits(whole) {
                        lemma_digits_value_prefix(whole, i + 1 - from);
                    }
                }
                return None;
            }
        } else {
            assert(!is_digit(unsigned_part(text@)[i - from]));
            return None;
        }
    }
    assert(text@.subrange(if signed { 1int } else { 0int }, text@.len() as int)
        =~= unsigned_part(text@));
    if !digits {
        None
    } else if negative {
        Some((-value) as i32)
    } else if value <= 0x7fff_ffff {
        Some(value as i32)
    } else {
        None
    }
}

} // verus!
