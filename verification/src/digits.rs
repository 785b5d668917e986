//! Decimal numbers written as text.

use vstd::prelude::*;

verus! {

/// Why a piece of text is not a number of the wanted type.
#[derive(Debug, Clone, Copy, PartialEq, Eq, Structural)]
pub enum IntError {
    /// The text is empty.
    Empty,
    /// The text holds something other than an optional sign and digits.
    InvalidDigit,
    /// The number is above the largest value of the type.
    PosOverflow,
    /// The number is below the smallest value of the type.
    NegOverflow,
}

/// Whether a character is one of `0` to `9`.
pub open spec fn is_digit(c: char) -> bool {
    '0' <= c && c <= '9'
}

/// The number that a digit stands for.
pub open spec fn digit_value(c: char) -> nat {
    (c as u32 - '0' as u32) as nat
}

/// Whether every character of a text is a digit.
pub open spec fn all_digits(s: Seq<char>) -> bool {
    forall|i: int| 0 <= i < s.len() ==> is_digit(#[trigger] s[i])
}

/// The number that a run of decimal digits denotes, most significant first.
pub open spec fn decimal_value(s: Seq<char>) -> nat
    decreases s.len(),
{
    if s.len() == 0 {
        0
    } else {
        decimal_value(s.drop_last()) * 10 + digit_value(s.last())
    }
}

/// What an optionally signed run of digits denotes within `lo ..= hi`.
/// A minus sign is only read where the range reaches below zero.
pub open spec fn parse_int(s: Seq<char>, lo: int, hi: int) -> Result<int, IntError> {
    if s.len() == 0 {
        Err(IntError::Empty)
    } else {
        let neg = s[0] == '-' && lo < 0;
        let body = if s[0] == '+' || neg {
            s.drop_first()
        } else {
            s
        };
        if body.len() == 0 || !all_digits(body) {
            Err(IntError::InvalidDigit)
        } else {
            let v = if neg {
                -(decimal_value(body) as int)
            } else {
                decimal_value(body) as int
            };
            if v > hi {
                Err(IntError::PosOverflow)
            } else if v < lo {
                Err(IntError::NegOverflow)
            } else {
                Ok(v)
            }
        }
    }
}

/// A longer run of digits never denotes less than one of its prefixes.
pub proof fn lemma_decimal_value_prefix(s: Seq<char>, i: int)
    requires
        0 <= i <= s.len(),
    ensures
        decimal_value(s.take(i)) <= decimal_value(s),
    decreases s.len(),
{
    if i == s.len() {
        assert(s.take(i) == s);
    } else {
        lemma_decimal_value_prefix(s.drop_last(), i);
        assert(s.drop_last().take(i) == s.take(i));
    }
}

/// Tells whether a character is a digit.
pub fn is_digit_char(c: char) -> (r: bool)
    ensures
        r == is_digit(c),
{
    '0' <= c && c <= '9'
}

/// The number that a digit stands for.
pub fn digit_of(c: char) -> (d: u64)
    requires
        is_digit(c),
    ensures
        d == digit_value(c),
        d <= 9,
{
    (c as u32 - '0' as u32) as u64
}

/// Whether every character of `v[from..to]` is a digit.
pub fn digits_only(v: &Vec<char>, from: usize, to: usize) -> (r: bool)
    requires
        from <= to <= v.len(),
    ensures
        r == all_digits(v@.subrange(from as int, to as int)),
{
    let ghost s = v@.subrange(from as int, to as int);
    let mut i: usize = from;
    while i < to
        invariant
            from <= i <= to <= v.len(),
            s == v@.subrange(from as int, to as int),
            forall|k: int| 0 <= k < i - from ==> is_digit(#[trigger] s[k]),
        decreases to - i,
    {
        if !is_digit_char(v[i]) {
            assert(!is_digit(s[i - from]));
            return false;
        }
        i += 1;
    }
    true
}

/// Reads `v[from..to]` as an unsigned number no larger than `max`.
pub fn read_decimal(v: &Vec<char>, from: usize, to: usize, max: u64) -> (r: Result<
    u64,
    IntError,
>)
    requires
        from <= to <= v.len(),
    ensures
        r == decimal_in_range(v@.subrange(from as int, to as int), max as nat),
{
    let ghost s = v@.subrange(from as int, to as int);
    if from == to || !digits_only(v, from, to) {
        return Err(IntError::InvalidDigit);
    }
    let mut acc: u64 = 0;
    let mut i: usize = from;
    while i < to
        invariant
            from <= i <= to <= v.len(),
            s == v@.subrange(from as int, to as int),
            all_digits(s),
            acc == decimal_value(s.take(i - from)),
            acc <= max,
        decreases to - i,
    {
        assert(is_digit(s[i - from]) && s[i - from] == v@[i as int]);
        let d = digit_of(v[i]);
        proof {
            assert(s.take(i - from + 1).drop_last() == s.take(i - from));
            assert(s.take(i - from + 1).last() == s[i - from]);
            lemma_decimal_value_prefix(s, i - from + 1);
        }
        if d > max || acc > (max - d) / 10 {
            return Err(IntError::PosOverflow);
        }
        acc = acc * 10 + d;
        i += 1;
    }
    proof {
        assert(s.take(to - from) == s);
    }
    Ok(acc)
}

/// What a run of digits denotes, when it is one and stays within `max`.
pub open spec fn decimal_in_range(s: Seq<char>, max: nat) -> Result<u64, IntError> {
    if s.len() == 0 || !all_digits(s) {
        Err(IntError::InvalidDigit)
    } else if decimal_value(s) > max {
        Err(IntError::PosOverflow)
    } else {
        Ok(decimal_value(s) as u64)
    }
}

/// Reads a whole text as an unsigned number no larger than `max`; a leading
/// plus sign is accepted.
pub fn parse_unsigned(v: &Vec<char>, max: u64) -> (r: Result<u64, IntError>)
    ensures
        match r {
            Ok(x) => parse_int(v@, 0, max as int) == Ok::<int, IntError>(x as int),
            Err(e) => parse_int(v@, 0, max as int) == Err::<int, IntError>(e),
        },
{
    if v.len() == 0 {
        return Err(IntError::Empty);
    }
    let start: usize = if v[0] == '+' {
        1
    } else {
        0
    };
    proof {
        if start == 1 {
            assert(v@.subrange(1, v.len() as int) == v@.drop_first());
        } else {
            assert(v@.subrange(0, v.len() as int) == v@);
        }
    }
    read_decimal(v, start, v.len(), max)
}

/// Reads a whole text as a `u64`.
pub fn parse_u64(v: &Vec<char>) -> (r: Result<u64, IntError>)
    ensures
        match r {
            Ok(x) => parse_int(v@, 0, u64::MAX as int) == Ok::<int, IntError>(x as int),
            Err(e) => parse_int(v@, 0, u64::MAX as int) == Err::<int, IntError>(e),
        },
{
    parse_unsigned(v, u64::MAX)
}

/// Reads a whole text as a `u32`.
pub fn parse_u32(v: &Vec<char>) -> (r: Result<u32, IntError>)
    ensures
        match r {
            Ok(x) => parse_int(v@, 0, u32::MAX as int) == Ok::<int, IntError>(x as int),
            Err(e) => parse_int(v@, 0, u32::MAX as int) == Err::<int, IntError>(e),
        },
{
    match parse_unsigned(v, 0xffff_ffff) {
        Ok(x) => Ok(x as u32),
        Err(e) => Err(e),
    }
}

/// Reads a whole text as an `i32`; a leading plus or minus sign is accepted.
pub fn parse_i32(v: &Vec<char>) -> (r: Result<i32, IntError>)
    ensures
        match r {
            Ok(x) => parse_int(v@, i32::MIN as int, i32::MAX as int) == Ok::<int, IntError>(
                x as int,
            ),
            Err(e) => parse_int(v@, i32::MIN as int, i32::MAX as int) == Err::<int, IntError>(e),
        },
{
    if v.len() == 0 {
        return Err(IntError::Empty);
    }
    let neg = v[0] == '-';
    let start: usize = if v[0] == '+' || neg {
        1
    } else {
        0
    };
    proof {
        if start == 1 {
            assert(v@.subrange(1, v.len() as int) == v@.drop_first());
        } else {
            assert(v@.subrange(0, v.len() as int) == v@);
        }
    }
    if neg {
        match read_decimal(v, start, v.len(), 0x8000_0000) {
            Ok(x) => Ok((-(x as i64)) as i32),
            Err(IntError::PosOverflow) => Err(IntError::NegOverflow),
            Err(e) => Err(e),
        }
    } else {
        match read_decimal(v, start, v.len(), 0x7fff_ffff) {
            Ok(x) => Ok(x as i32),
            Err(e) => Err(e),
        }
    }
}

/// The character that writes one decimal digit.
pub open spec fn digit_char(d: nat) -> char {
    if d == 0 {
        '0'
    } else if d == 1 {
        '1'
    } else if d == 2 {
        '2'
    } else if d == 3 {
        '3'
    } else if d == 4 {
        '4'
    } else if d == 5 {
        '5'
    } else if d == 6 {
        '6'
    } else if d == 7 {
        '7'
    } else if d == 8 {
        '8'
    } else {
        '9'
    }
}

/// A number written in decimal, without sign or leading zeros.
pub open spec fn decimal_text(n: nat) -> Seq<char>
    decreases n,
{
    if n < 10 {
        seq![digit_char(n)]
    } else {
        decimal_text(n / 10).push(digit_char(n % 10))
    }
}

/// The character that writes one decimal digit.
pub fn char_of_digit(d: u64) -> (c: char)
    requires
        d <= 9,
    ensures
        c == digit_char(d as nat),
        is_digit(c),
        digit_value(c) == d,
{
    if d == 0 {
        '0'
    } else if d == 1 {
        '1'
    } else if d == 2 {
        '2'
    } else if d == 3 {
        '3'
    } else if d == 4 {
        '4'
    } else if d == 5 {
        '5'
    } else if d == 6 {
        '6'
    } else if d == 7 {
        '7'
    } else if d == 8 {
        '8'
    } else {
        '9'
    }
}

/// Appends a number in decimal to `out`.
pub fn push_decimal(out: &mut Vec<char>, n: u64)
    ensures
        final(out)@ == old(out)@ + decimal_text(n as nat),
    decreases n,
{
    if n < 10 {
        out.push(char_of_digit(n));
        assert(old(out)@.push(digit_char(n as nat)) == old(out)@ + seq![digit_char(n as nat)]);
    } else {
        push_decimal(out, n / 10);
        out.push(char_of_digit(n % 10));
        assert((old(out)@ + decimal_text((n / 10) as nat)).push(digit_char((n % 10) as nat))
            == old(out)@ + decimal_text((n / 10) as nat).push(digit_char((n % 10) as nat)));
    }
}

/// Appends a number that may exceed 64 bits in decimal to `out`.
pub fn push_decimal_wide(out: &mut Vec<char>, n: u128)
    ensures
        final(out)@ == old(out)@ + decimal_text(n as nat),
    decreases n,
{
    if n < 10 {
        out.push(char_of_digit(n as u64));
        assert(old(out)@.push(digit_char(n as nat)) == old(out)@ + seq![digit_char(n as nat)]);
    } else {
        push_decimal_wide(out, n / 10);
        out.push(char_of_digit((n % 10) as u64));
        assert((old(out)@ + decimal_text((n / 10) as nat)).push(digit_char((n % 10) as nat))
            == old(out)@ + decimal_text((n / 10) as nat).push(digit_char((n % 10) as nat)));
    }
}

/// Written in decimal, a number reads back as itself.
pub proof fn lemma_decimal_round_trip(n: nat)
    ensures
        decimal_text(n).len() > 0,
        all_digits(decimal_text(n)),
        decimal_value(decimal_text(n)) == n,
    decreases n,
{
    if n < 10 {
        let s = decimal_text(n);
        assert(s.drop_last().len() == 0);
        assert(decimal_value(s) == decimal_value(s.drop_last()) * 10 + digit_value(s.last()));
    } else {
        lemma_decimal_round_trip(n / 10);
        let s = decimal_text(n);
        assert(s.drop_last() == decimal_text(n / 10));
        assert(s.last() == digit_char(n % 10));
    }
}

} // verus!
