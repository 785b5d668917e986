//! Time strings as milliseconds.
//!
//! Two shapes are read: `HH:MM:SS` with an optional decimal fraction of the
//! seconds, as renderers report positions, and `HH:MM:SS,mmm`, as subtitle
//! files write timestamps. Anything else counts as zero.
//!
//! Seconds are read as digits with an optional fraction, in exact decimal
//! arithmetic: `00:00:01.0019` is 1001 ms, the digits past the third being
//! dropped. Seconds with an exponent, a minus sign, or written `inf` or
//! `NaN` are no number here, so such a string counts as zero. Sums that do
//! not fit in 64 bits are cut off at the largest value.

use crate::digits::{
    all_digits, decimal_value, digit_of, digit_value, digits_only, is_digit, parse_int, parse_u64,
    read_decimal,
};
use crate::text::{chars_of, split_chars, split_on};
use vstd::prelude::*;

verus! {

/// Milliseconds in a second
pub const MS_PER_SECOND: u64 = 1000;

/// Milliseconds in a minute
pub const MS_PER_MINUTE: u64 = 60000;

/// Milliseconds in an hour
pub const MS_PER_HOUR: u64 = 3600000;

/// The position of the first `c` in `s`, or the length of `s` where there is
/// none.
pub open spec fn index_of(s: Seq<char>, c: char) -> int
    decreases s.len(),
{
    if s.len() == 0 || s[0] == c {
        0
    } else {
        1 + index_of(s.drop_first(), c)
    }
}

/// The first `c` of a text stands where a `c` stands that no `c` precedes.
pub proof fn lemma_index_of(s: Seq<char>, c: char, n: int)
    requires
        0 <= n <= s.len(),
        forall|k: int| 0 <= k < n ==> s[k] != c,
        n == s.len() || s[n] == c,
    ensures
        index_of(s, c) == n,
    decreases n,
{
    if n > 0 {
        let t = s.drop_first();
        assert forall|k: int| 0 <= k < n - 1 implies t[k] != c by {
            assert(t[k] == s[k + 1]);
        }
        lemma_index_of(t, c, n - 1);
    }
}

/// A count of milliseconds cut off at the largest `u64`.
pub open spec fn saturate(n: nat) -> u64 {
    if n > u64::MAX {
        u64::MAX
    } else {
        n as u64
    }
}

/// The milliseconds that the digits after a decimal point stand for; digits
/// past the third are dropped.
pub open spec fn fraction_ms(f: Seq<char>) -> nat {
    (if f.len() > 0 {
        digit_value(f[0]) * 100
    } else {
        0
    }) + (if f.len() > 1 {
        digit_value(f[1]) * 10
    } else {
        0
    }) + (if f.len() > 2 {
        digit_value(f[2])
    } else {
        0
    })
}

/// Seconds written as digits with an optional decimal fraction and an
/// optional leading plus sign, in milliseconds. At least one digit is needed.
pub open spec fn seconds_ms(s: Seq<char>) -> Option<nat> {
    let body = if s.len() > 0 && s[0] == '+' {
        s.drop_first()
    } else {
        s
    };
    let dot = index_of(body, '.');
    let whole = body.take(dot);
    let frac = if dot < body.len() {
        body.skip(dot + 1)
    } else {
        Seq::<char>::empty()
    };
    if all_digits(whole) && all_digits(frac) && whole.len() + frac.len() > 0 {
        Some((decimal_value(whole) * MS_PER_SECOND + fraction_ms(frac)) as nat)
    } else {
        None
    }
}

/// `HH:MM:SS[.fff]` in milliseconds, where the text has that shape.
pub open spec fn dlna_time(s: Seq<char>) -> Option<nat> {
    let p = split_on(s, ':', ':');
    if p.len() != 3 {
        None
    } else {
        match (
            parse_int(p[0], 0, u64::MAX as int),
            parse_int(p[1], 0, u64::MAX as int),
            seconds_ms(p[2]),
        ) {
            (Ok(h), Ok(m), Some(ms)) => Some((h * MS_PER_HOUR + m * MS_PER_MINUTE + ms) as nat),
            _ => None,
        }
    }
}

/// `HH:MM:SS,mmm` in milliseconds, where the text has that shape.
pub open spec fn subtitle_time(s: Seq<char>) -> Option<nat> {
    let p = split_on(s, ',', ':');
    if p.len() != 4 {
        None
    } else {
        match (
            parse_int(p[0], 0, u64::MAX as int),
            parse_int(p[1], 0, u64::MAX as int),
            parse_int(p[2], 0, u64::MAX as int),
            parse_int(p[3], 0, u64::MAX as int),
        ) {
            (Ok(h), Ok(m), Ok(sec), Ok(ms)) => Some(
                (h * MS_PER_HOUR + m * MS_PER_MINUTE + sec * MS_PER_SECOND + ms) as nat,
            ),
            _ => None,
        }
    }
}

/// The milliseconds a time string stands for: the first shape that fits,
/// zero when neither does.
pub open spec fn time_ms(s: Seq<char>) -> u64 {
    match dlna_time(s) {
        Some(t) => saturate(t),
        None => match subtitle_time(s) {
            Some(t) => saturate(t),
            None => 0,
        },
    }
}

fn cap(n: u128) -> (r: u64)
    ensures
        r == saturate(n as nat),
{
    if n > 0xffff_ffff_ffff_ffff {
        0xffff_ffff_ffff_ffff
    } else {
        n as u64
    }
}

fn read_fraction(v: &Vec<char>, from: usize) -> (r: u64)
    requires
        from <= v.len(),
        all_digits(v@.subrange(from as int, v.len() as int)),
    ensures
        r == fraction_ms(v@.subrange(from as int, v.len() as int)),
        r <= 999,
{
    let ghost f = v@.subrange(from as int, v.len() as int);
    let n = v.len() - from;
    let mut r: u64 = 0;
    if n > 0 {
        assert(is_digit(f[0]) && f[0] == v@[from as int]);
        r = r + digit_of(v[from]) * 100;
    }
    if n > 1 {
        assert(is_digit(f[1]) && f[1] == v@[from + 1]);
        r = r + digit_of(v[from + 1]) * 10;
    }
    if n > 2 {
        assert(is_digit(f[2]) && f[2] == v@[from + 2]);
        r = r + digit_of(v[from + 2]);
    }
    r
}

/// Reads seconds with an optional fraction; the result is cut off at the
/// largest `u64`.
fn read_seconds(v: &Vec<char>) -> (r: Option<u128>)
    ensures
        match r {
            Some(ms) => seconds_ms(v@) == Some(ms as nat) || (ms == u64::MAX + 1000
                && seconds_ms(v@).is_some() && seconds_ms(v@).unwrap() > u64::MAX),
            None => seconds_ms(v@).is_none(),
        },
        r.is_some() ==> r.unwrap() <= u64::MAX + 1000,
{
    let len = v.len();
    let start: usize = if len > 0 && v[0] == '+' {
        1
    } else {
        0
    };
    let ghost body = v@.subrange(start as int, len as int);
    proof {
        if start == 1 {
            assert(body == v@.drop_first());
        } else {
            assert(body == v@);
        }
    }
    let mut dot: usize = start;
    while dot < len && v[dot] != '.'
        invariant
            start <= dot <= len == v.len(),
            body == v@.subrange(start as int, len as int),
            forall|k: int| 0 <= k < dot - start ==> body[k] != '.',
        decreases len - dot,
    {
        dot += 1;
    }
    proof {
        lemma_index_of(body, '.', dot - start);
        assert(body.take(dot - start) == v@.subrange(start as int, dot as int));
        if dot < len {
            assert(body.skip(dot - start + 1) == v@.subrange(dot + 1, len as int));
        }
    }
    let frac_from: usize = if dot < len {
        dot + 1
    } else {
        len
    };
    proof {
        if dot == len {
            assert(v@.subrange(len as int, len as int) == Seq::<char>::empty());
        }
    }
    if !digits_only(v, start, dot) || !digits_only(v, frac_from, len) {
        return None;
    }
    if dot - start + (len - frac_from) == 0 {
        return None;
    }
    let frac = read_fraction(v, frac_from);
    if dot == start {
        assert(v@.subrange(start as int, dot as int).len() == 0);
        return Some(frac as u128);
    }
    match read_decimal(v, start, dot, 0xffff_ffff_ffff_ffff) {
        Ok(whole) => {
            let total: u128 = whole as u128 * (MS_PER_SECOND as u128) + frac as u128;
            if total > 0xffff_ffff_ffff_ffff {
                Some(0xffff_ffff_ffff_ffff + 1000)
            } else {
                Some(total)
            }
        },
        Err(_) => Some(0xffff_ffff_ffff_ffff + 1000),
    }
}

/// Reads `HH:MM:SS` with an optional decimal fraction of the seconds.
pub fn parse_dlna_time_format(time_str: &str) -> (r: Result<u64, ()>)
    ensures
        r == match dlna_time(time_str@) {
            Some(t) => Ok::<u64, ()>(saturate(t)),
            None => Err::<u64, ()>(()),
        },
{
    let v = chars_of(time_str);
    let parts = split_chars(&v, ':', ':');
    if parts.len() != 3 {
        return Err(());
    }
    let ghost p = split_on(time_str@, ':', ':');
    assert(p[0] == parts[0]@ && p[1] == parts[1]@ && p[2] == parts[2]@);
    let hours = match parse_u64(&parts[0]) {
        Ok(h) => h,
        Err(_) => {
            return Err(());
        },
    };
    let minutes = match parse_u64(&parts[1]) {
        Ok(m) => m,
        Err(_) => {
            return Err(());
        },
    };
    let ms = match read_seconds(&parts[2]) {
        Some(ms) => ms,
        None => {
            return Err(());
        },
    };
    let total: u128 = hours as u128 * (MS_PER_HOUR as u128) + minutes as u128 * (
    MS_PER_MINUTE as u128) + ms;
    Ok(cap(total))
}

/// Reads `HH:MM:SS,mmm`.
pub fn parse_subtitle_time_format(time_str: &str) -> (r: Result<u64, ()>)
    ensures
        r == match subtitle_time(time_str@) {
            Some(t) => Ok::<u64, ()>(saturate(t)),
            None => Err::<u64, ()>(()),
        },
{
    let v = chars_of(time_str);
    let parts = split_chars(&v, ',', ':');
    if parts.len() != 4 {
        return Err(());
    }
    let ghost p = split_on(time_str@, ',', ':');
    assert(p[0] == parts[0]@ && p[1] == parts[1]@ && p[2] == parts[2]@ && p[3] == parts[3]@);
    let hours = match parse_u64(&parts[0]) {
        Ok(h) => h,
        Err(_) => {
            return Err(());
        },
    };
    let minutes = match parse_u64(&parts[1]) {
        Ok(m) => m,
        Err(_) => {
            return Err(());
        },
    };
    let seconds = match parse_u64(&parts[2]) {
        Ok(s) => s,
        Err(_) => {
            return Err(());
        },
    };
    let ms = match parse_u64(&parts[3]) {
        Ok(ms) => ms,
        Err(_) => {
            return Err(());
        },
    };
    let total: u128 = hours as u128 * (MS_PER_HOUR as u128) + minutes as u128 * (
    MS_PER_MINUTE as u128) + seconds as u128 * (MS_PER_SECOND as u128) + ms as u128;
    Ok(cap(total))
}

/// Converts a time string to milliseconds; zero where it has neither shape.
pub fn time_str_to_milliseconds(time_str: &str) -> (ms: u64)
    ensures
        ms == time_ms(time_str@),
{
    if let Ok(ms) = parse_dlna_time_format(time_str) {
        return ms;
    }
    if let Ok(ms) = parse_subtitle_time_format(time_str) {
        return ms;
    }
    0
}

/// What one part of a clock reading counts, in thousandths: seconds with
/// an optional fraction, or zero where the part is no number.
pub open spec fn part_ms(p: Seq<char>) -> nat {
    match seconds_ms(p) {
        Some(ms) => ms,
        None => 0,
    }
}

/// A clock reading in milliseconds: `H:M:S`, `M:S` or `S`, each part a
/// number with an optional fraction; a part that is no number counts as
/// zero, and so does a reading with more than three parts.
pub open spec fn clock_time(s: Seq<char>) -> nat {
    let p = split_on(s, ':', ':');
    if p.len() == 3 {
        part_ms(p[0]) * 3600 + part_ms(p[1]) * 60 + part_ms(p[2])
    } else if p.len() == 2 {
        part_ms(p[0]) * 60 + part_ms(p[1])
    } else if p.len() == 1 {
        part_ms(p[0])
    } else {
        0
    }
}

/// How far `position` is into `duration`, in percent, rounded down and at
/// most 100; zero where the duration is zero or unknown.
pub open spec fn progress_of(position: Seq<char>, duration: Seq<char>) -> nat {
    let total = saturate(clock_time(duration)) as nat;
    let current = saturate(clock_time(position)) as nat;
    if total == 0 {
        0
    } else if current * 100 / total >= 100 {
        100
    } else {
        current * 100 / total
    }
}

/// Reads one part of a clock reading. The result is exact up to the
/// largest `u64` and larger than that where the part is.
fn read_part(v: &Vec<char>) -> (r: u128)
    ensures
        r <= u64::MAX + 1000,
        r == part_ms(v@) || (r > u64::MAX && part_ms(v@) > u64::MAX),
{
    match read_seconds(v) {
        Some(ms) => ms,
        None => 0,
    }
}

/// Reads a clock reading as milliseconds, cut off at the largest `u64`.
pub fn clock_ms(time_str: &str) -> (ms: u64)
    ensures
        ms == saturate(clock_time(time_str@)),
{
    let v = chars_of(time_str);
    let parts = split_chars(&v, ':', ':');
    let ghost p = split_on(time_str@, ':', ':');
    if parts.len() == 3 {
        assert(p[0] == parts[0]@ && p[1] == parts[1]@ && p[2] == parts[2]@);
        let h = read_part(&parts[0]);
        let m = read_part(&parts[1]);
        let sec = read_part(&parts[2]);
        cap(h * 3600 + m * 60 + sec)
    } else if parts.len() == 2 {
        assert(p[0] == parts[0]@ && p[1] == parts[1]@);
        let m = read_part(&parts[0]);
        let sec = read_part(&parts[1]);
        cap(m * 60 + sec)
    } else if parts.len() == 1 {
        assert(p[0] == parts[0]@);
        cap(read_part(&parts[0]))
    } else {
        0
    }
}

/// Says how far a position is into a duration, in percent.
pub fn progress_percent(position: &str, duration: &str) -> (r: u16)
    ensures
        r == progress_of(position@, duration@),
        r <= 100,
{
    let total = clock_ms(duration);
    let current = clock_ms(position);
    if total == 0 {
        return 0;
    }
    let percent: u128 = current as u128 * 100 / (total as u128);
    if percent >= 100 {
        100
    } else {
        percent as u16
    }
}

} // verus!
