use vstd::prelude::*;
use crate::text::{
    chars_of, decimal, digit_char, parse_unsigned, parse_unsigned_chars, push_char,
    push_decimal, push_str, split_once, split_once_chars,
};

verus! {

pub open spec fn kib() -> int {
    1024
}

pub open spec fn mib() -> int {
    1048576
}

pub open spec fn gib() -> int {
    1073741824
}

/// A signed whole number in decimal, with a leading `-` when negative.
pub open spec fn signed_decimal(v: int) -> Seq<char> {
    if v < 0 {
        seq!['-'] + decimal((-v) as nat)
    } else {
        decimal(v as nat)
    }
}

/// `q` hundredths written as a number: the whole part, then `.` and the
/// hundredths without trailing zeros when they are not zero.
pub open spec fn hundredths_text(q: nat) -> Seq<char> {
    let whole = q / 100;
    let frac = q % 100;
    if frac == 0 {
        decimal(whole)
    } else if frac % 10 == 0 {
        decimal(whole) + seq!['.', digit_char(frac / 10)]
    } else {
        decimal(whole) + seq!['.', digit_char(frac / 10), digit_char(frac % 10)]
    }
}

/// A byte count for people to read: bytes up to 1024, then whole kilobytes up
/// to 1024 KB, then whole megabytes up to 1024 MB, then gigabytes rounded
/// down to hundredths.
pub open spec fn readable_size(value: int) -> Seq<char> {
    if value > gib() {
        hundredths_text(((value * 100) / gib()) as nat) + "GB"@
    } else if value > mib() {
        decimal((value / mib()) as nat) + "MB"@
    } else if value > kib() {
        decimal((value / kib()) as nat) + "KB"@
    } else {
        signed_decimal(value) + "B"@
    }
}

fn push_hundredths(s: &mut String, q: u64)
    ensures
        final(s)@ == old(s)@ + hundredths_text(q as nat),
{
    let whole = q / 100;
    let frac = q % 100;
    push_decimal(s, whole);
    if frac != 0 {
        push_char(s, '.');
        push_char(s, digit(frac / 10));
        if frac % 10 != 0 {
            push_char(s, digit(frac % 10));
        }
    }
    assert(s@ =~= old(s)@ + hundredths_text(q as nat));
}

fn digit(d: u64) -> (c: char)
    requires
        d < 10,
    ensures
        c == digit_char(d as nat),
{
    if d == 0 { '0' }
    else if d == 1 { '1' }
    else if d == 2 { '2' }
    else if d == 3 { '3' }
    else if d == 4 { '4' }
    else if d == 5 { '5' }
    else if d == 6 { '6' }
    else if d == 7 { '7' }
    else if d == 8 { '8' }
    else { '9' }
}

/// Writes a byte count for people to read, such as `512B`, `3KB`, `12MB` or
/// `1.5GB`.
pub fn file_size_bytes_to_readable_string(value: i64) -> (res: String)
    ensures
        res@ == readable_size(value as int),
{
    let mut s = String::new();
    if value > 1024 * 1024 * 1024 {
        let q = ((value as i128) * 100 / (1024 * 1024 * 1024)) as u64;
        push_hundredths(&mut s, q);
        push_str(&mut s, "GB");
    } else if value > 1024 * 1024 {
        push_decimal(&mut s, (value / (1024 * 1024)) as u64);
        push_str(&mut s, "MB");
    } else if value > 1024 {
        push_decimal(&mut s, (value / 1024) as u64);
        push_str(&mut s, "KB");
    } else {
        if value < 0 {
            push_char(&mut s, '-');
            let magnitude: u64 = ((-(value + 1)) as u64) + 1;
            push_decimal(&mut s, magnitude);
        } else {
            push_decimal(&mut s, value as u64);
        }
        push_str(&mut s, "B");
    }
    assert(s@ =~= readable_size(value as int));
    s
}

/// The text before the first `-`, or all of it when there is none.
pub open spec fn num_part(value: Seq<char>) -> Seq<char> {
    match split_once(value, '-') {
        Some((l, _)) => l,
        None => value,
    }
}

/// Reads a string of the form `{number}-{description}` (or a bare number) and
/// gives the number, or `None` when the part before the first `-` is not a
/// number that fits in a `usize`.
pub fn parse_num_description_string(value: &str) -> (res: Option<usize>)
    ensures
        res == match parse_unsigned(num_part(value@), usize::MAX as nat) {
            Some(n) => Some(n as usize),
            None => None,
        },
{
    let v = chars_of(value);
    let part = match split_once_chars(&v, '-') {
        Some((l, _)) => l,
        None => v,
    };
    match parse_unsigned_chars(&part, usize::MAX as u64) {
        Some(n) => Some(n as usize),
        None => None,
    }
}

} // verus!
