//! Wall-clock and monotonic time, and the ISO 8601 timestamps that records carry.
use vstd::prelude::*;
use crate::text::{dec_string, push_decimal};

verus! {

/// `std::time::Instant`, a monotonic clock reading.
#[verifier::external_type_specification]
#[verifier::external_body]
pub struct ExInstant(std::time::Instant);

/// `Instant::now`. Nothing is promised of the reading.
#[verifier::external_body]
pub(crate) fn now_instant() -> std::time::Instant {
    std::time::Instant::now()
}

/// Whole milliseconds since `start` (`Instant::elapsed` then `as_millis`,
/// truncated to `u64`). The value depends on the clock; nothing is promised.
#[verifier::external_body]
pub(crate) fn elapsed_ms(start: &std::time::Instant) -> u64 {
    start.elapsed().as_millis() as u64
}

/// Milliseconds since the UNIX epoch by the system clock, or 0 when the
/// clock reads before the epoch (`SystemTime::now().duration_since`).
/// The value depends on the clock; nothing is promised.
#[verifier::external_body]
pub(crate) fn unix_time_ms() -> u64 {
    std::time::SystemTime::now()
        .duration_since(std::time::UNIX_EPOCH)
        .map(|d| d.as_millis() as u64)
        .unwrap_or(0)
}

/// The sub-second nanoseconds of the system clock since the epoch, or 0
/// before the epoch. Depends on the clock; only the range is promised.
#[verifier::external_body]
pub(crate) fn subsec_nanos_now() -> (r: u32)
    ensures
        r < 1_000_000_000,
{
    std::time::SystemTime::now()
        .duration_since(std::time::UNIX_EPOCH)
        .map(|d| d.subsec_nanos())
        .unwrap_or(0)
}

pub open spec fn is_leap(y: nat) -> bool {
    (y % 4 == 0 && y % 100 != 0) || y % 400 == 0
}

pub open spec fn year_len(y: nat) -> nat {
    if is_leap(y) { 366 } else { 365 }
}

pub open spec fn month_len(y: nat, m: nat) -> nat {
    if m == 2 {
        if is_leap(y) { 29 } else { 28 }
    } else if m == 4 || m == 6 || m == 9 || m == 11 {
        30
    } else {
        31
    }
}

/// The year that holds day `days` counted from the first day of year `y`,
/// and the day within that year.
pub open spec fn year_of(days: nat, y: nat) -> (nat, nat)
    decreases days,
{
    if days < year_len(y) {
        (y, days)
    } else {
        year_of((days - year_len(y)) as nat, y + 1)
    }
}

/// The month (from `m`) that holds day `doy` of year `y`, and the day within it.
pub open spec fn month_of(doy: nat, y: nat, m: nat) -> (nat, nat)
    decreases 12 - m,
{
    if m >= 12 || doy < month_len(y, m) {
        (m, doy)
    } else {
        month_of((doy - month_len(y, m)) as nat, y, m + 1)
    }
}

/// `n` in decimal, padded on the left with zeros to at least `w` digits.
pub open spec fn padded(n: nat, w: nat) -> Seq<char> {
    let d = dec_string(n);
    if d.len() >= w {
        d
    } else {
        Seq::new((w - d.len()) as nat, |i: int| '0') + d
    }
}

/// `YYYY-MM-DDTHH:MM:SS.mmmZ` (UTC) for `ms` milliseconds after the epoch.
pub open spec fn iso_utc(ms: nat) -> Seq<char> {
    let days = ms / 86_400_000;
    let rem = ms % 86_400_000;
    let (y, doy) = year_of(days, 1970);
    let (m, d) = month_of(doy, y, 1);
    padded(y, 4) + "-"@ + padded(m, 2) + "-"@ + padded(d + 1, 2) + "T"@ + padded(rem / 3_600_000, 2)
        + ":"@ + padded((rem % 3_600_000) / 60_000, 2) + ":"@ + padded((rem % 60_000) / 1000, 2) + "."@
        + padded(rem % 1000, 3) + "Z"@
}

/// Appends `n` padded with zeros to at least `w` digits.
pub fn push_padded(out: &mut Vec<char>, n: u64, w: usize)
    ensures
        final(out)@ == old(out)@ + padded(n as nat, w as nat),
{
    let mut digits: Vec<char> = Vec::new();
    push_decimal(&mut digits, n);
    assert(digits@ =~= dec_string(n as nat));
    let start = out.len();
    if digits.len() < w {
        let mut k: usize = 0;
        while k < w - digits.len()
            invariant
                digits.len() < w,
                k <= w - digits.len(),
                out@ == old(out)@ + Seq::new(k as nat, |i: int| '0'),
            decreases w - digits.len() - k,
        {
            out.push('0');
            assert(Seq::new((k + 1) as nat, |i: int| '0') =~= Seq::new(k as nat, |i: int| '0').push('0'));
            k += 1;
        }
    }
    crate::text::append_chars(out, &digits);
    assert(out@ =~= old(out)@ + padded(n as nat, w as nat));
}

/// Appends a string literal's characters.
fn push_lit(out: &mut Vec<char>, s: &str)
    ensures
        final(out)@ == old(out)@ + s@,
{
    crate::text::append_str(out, s);
}

/// The ISO 8601 UTC timestamp of `ms` milliseconds after the epoch.
pub fn iso_from_unix_ms(ms: u64) -> (r: String)
    ensures
        r@ == iso_utc(ms as nat),
{
    let mut days = ms / 86_400_000;
    let rem = ms % 86_400_000;
    let mut y: u64 = 1970;
    loop
        invariant
            y >= 1970,
            y <= 1970 + ms / 86_400_000 - days,
            days <= ms / 86_400_000,
            year_of((ms / 86_400_000) as nat, 1970) == year_of(days as nat, y as nat),
        ensures
            days < year_len(y as nat),
            year_of((ms / 86_400_000) as nat, 1970) == (y as nat, days as nat),
        decreases days,
    {
        let len: u64 = if (y % 4 == 0 && y % 100 != 0) || y % 400 == 0 { 366 } else { 365 };
        assert(len == year_len(y as nat));
        if days < len {
            break;
        }
        days = days - len;
        y = y + 1;
    }
    let leap = (y % 4 == 0 && y % 100 != 0) || y % 400 == 0;
    assert(leap == is_leap(y as nat));
    let mut m: u64 = 1;
    let mut doy = days;
    loop
        invariant
            1 <= m <= 12,
            leap == is_leap(y as nat),
            doy <= days < 366,
            month_of(days as nat, y as nat, 1) == month_of(doy as nat, y as nat, m as nat),
        ensures
            1 <= m <= 12,
            doy < 366,
            month_of(days as nat, y as nat, 1) == (m as nat, doy as nat),
        decreases 12 - m,
    {
        let ml: u64 = if m == 2 {
            if leap { 29 } else { 28 }
        } else if m == 4 || m == 6 || m == 9 || m == 11 {
            30
        } else {
            31
        };
        assert(ml == month_len(y as nat, m as nat));
        if m >= 12 || doy < ml {
            break;
        }
        doy = doy - ml;
        m = m + 1;
    }
    let mut out: Vec<char> = Vec::new();
    push_padded(&mut out, y, 4);
    push_lit(&mut out, "-");
    push_padded(&mut out, m, 2);
    push_lit(&mut out, "-");
    push_padded(&mut out, doy + 1, 2);
    push_lit(&mut out, "T");
    push_padded(&mut out, rem / 3_600_000, 2);
    push_lit(&mut out, ":");
    push_padded(&mut out, (rem % 3_600_000) / 60_000, 2);
    push_lit(&mut out, ":");
    push_padded(&mut out, (rem % 60_000) / 1000, 2);
    push_lit(&mut out, ".");
    push_padded(&mut out, rem % 1000, 3);
    push_lit(&mut out, "Z");
    crate::text::string_of(&out)
}

/// The current time as an ISO 8601 UTC timestamp.
pub fn chrono_now_iso() -> (r: String)
    ensures
        exists|ms: u64| r@ == iso_utc(ms as nat),
{
    let ms = unix_time_ms();
    iso_from_unix_ms(ms)
}

} // verus!
