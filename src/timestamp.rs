//! Wall-clock timestamps as plain fields, and their compact
//! `YYYYMMDD_HHMMSS` form used in run directory names.

use chrono::{Datelike, Timelike};
use crate::text::push_char;
use vstd::prelude::*;

verus! {

/// A local calendar date and time of day, to the second.
pub struct Timestamp {
    pub year: i32,
    pub month: u32,
    pub day: u32,
    pub hour: u32,
    pub minute: u32,
    pub second: u32,
}

impl Timestamp {
    /// The fields lie in their calendar ranges.
    pub open spec fn valid(&self) -> bool {
        &&& 1 <= self.month <= 12
        &&& 1 <= self.day <= 31
        &&& self.hour < 24
        &&& self.minute < 60
        &&& self.second < 60
    }
}

/// The decimal digit for `n % 10`.
pub open spec fn digit(n: nat) -> char {
    ((n % 10) + 48) as u8 as char
}

/// `n` in decimal, with leading zeros up to `width` digits.
pub open spec fn padded(n: nat, width: nat) -> Seq<char>
    decreases n + width,
{
    if n < 10 && width <= 1 {
        seq![digit(n)]
    } else {
        padded(n / 10, if width > 0 { (width - 1) as nat } else { 0 }).push(digit(n))
    }
}

/// The year as four zero-padded digits; outside `0..=9999` it carries a
/// sign in front.
pub open spec fn year_text(y: int) -> Seq<char> {
    if 0 <= y < 10000 {
        padded(y as nat, 4)
    } else if y >= 0 {
        seq!['+'] + padded(y as nat, 4)
    } else {
        seq!['-'] + padded((-y) as nat, 4)
    }
}

/// `YYYYMMDD_HHMMSS`.
pub open spec fn stamp_text(t: Timestamp) -> Seq<char> {
    year_text(t.year as int) + padded(t.month as nat, 2) + padded(t.day as nat, 2) + seq!['_']
        + padded(t.hour as nat, 2) + padded(t.minute as nat, 2) + padded(t.second as nat, 2)
}

fn digit_char(n: u64) -> (c: char)
    ensures
        c == digit(n as nat),
{
    ((n % 10) as u8 + 48) as char
}

/// Appends `n` in decimal, zero-padded to `width` digits.
fn push_padded(s: &mut String, n: u64, width: u64)
    ensures
        final(s)@ == old(s)@ + padded(n as nat, width as nat),
    decreases n + width,
{
    if n < 10 && width <= 1 {
        push_char(s, digit_char(n));
    } else {
        let w = if width > 0 { width - 1 } else { 0 };
        push_padded(s, n / 10, w);
        push_char(s, digit_char(n));
        assert(final(s)@ =~= old(s)@ + padded(n as nat, width as nat));
    }
}

/// Formats a timestamp as `YYYYMMDD_HHMMSS`.
pub fn format_timestamp(t: &Timestamp) -> (r: String)
    ensures
        r@ == stamp_text(*t),
{
    let mut s = String::new();
    if 0 <= t.year && t.year < 10000 {
        push_padded(&mut s, t.year as u64, 4);
    } else if t.year >= 0 {
        push_char(&mut s, '+');
        push_padded(&mut s, t.year as u64, 4);
    } else {
        push_char(&mut s, '-');
        push_padded(&mut s, (-(t.year as i64)) as u64, 4);
    }
    push_padded(&mut s, t.month as u64, 2);
    push_padded(&mut s, t.day as u64, 2);
    push_char(&mut s, '_');
    push_padded(&mut s, t.hour as u64, 2);
    push_padded(&mut s, t.minute as u64, 2);
    push_padded(&mut s, t.second as u64, 2);
    assert(s@ =~= stamp_text(*t));
    s
}

/// Relies on chrono's conversion of `std::time::SystemTime::now()` into a
/// `DateTime<Local>` (a clock before 1970 gives a negative timestamp rather
/// than a panic) and on the `Datelike` / `Timelike` getters of the result,
/// which document the ranges of month, day, hour, minute and second.
#[verifier::external_body]
pub(crate) fn local_now() -> (r: Timestamp)
    ensures
        r.valid(),
{
    let now: chrono::DateTime<chrono::Local> = std::time::SystemTime::now().into();
    Timestamp {
        year: now.year(),
        month: now.month(),
        day: now.day(),
        hour: now.hour(),
        minute: now.minute(),
        second: now.second(),
    }
}

} // verus!
