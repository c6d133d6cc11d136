//! Absolute civil-timestamp formatting — gitweb's `parse_date` and the
//! numbers behind `format_timestamp_html`.
//!
//! Three forms are built off one epoch: `rfc2822` (always UTC, `+0000`),
//! `iso-8601` (UTC, `Z`) and `iso-tz` (the civil date in the commit's own
//! zone). The civil fields come from Howard Hinnant's `civil_from_days` over
//! floor division, so negative epochs and zone offsets crossing day, month and
//! year boundaries are handled uniformly.

use vstd::prelude::*;
use crate::model::signature::Signature;
use crate::text::{
    chars_of, decimal, decimal_chars, digit, fmt_space_padded, fmt_zero_padded, is_digit,
    push_all, push_str, space_padded, string_of, zero_padded,
};

verus! {

/// Floor division by a positive divisor.
pub fn floor_div(a: i64, b: i64) -> (q: i64)
    requires
        b > 0,
    ensures
        q == a / b,
{
    if a >= 0 {
        a / b
    } else {
        let n: i64 = -(a + 1);
        let q0: i64 = n / b;
        assert(-q0 - 1 == a / b) by (nonlinear_arith)
            requires
                n == -(a + 1),
                q0 == n / b,
                b > 0,
                a < 0,
                n >= 0,
        ;
        -q0 - 1
    }
}

/// Floor remainder by a positive divisor.
pub fn floor_mod(a: i64, b: i64) -> (r: i64)
    requires
        b > 0,
    ensures
        r == a % b,
        0 <= r < b,
{
    let q: i64 = floor_div(a, b);
    assert(-0x8000_0000_0000_0000 * 0x8000_0000_0000_0000 <= q * b <= 0x8000_0000_0000_0000
        * 0x8000_0000_0000_0000) by (nonlinear_arith)
        requires
            -0x8000_0000_0000_0000 <= q <= 0x8000_0000_0000_0000,
            0 < b <= 0x8000_0000_0000_0000,
    ;
    let qb: i128 = q as i128 * b as i128;
    let r: i128 = a as i128 - qb;
    assert(r == a % b && 0 <= r < b) by (nonlinear_arith)
        requires
            q == a / b,
            b > 0,
            r == a - q * b,
    ;
    r as i64
}

/// The offset in seconds of a `+HHMM`/`-HHMM` zone token; any other token is
/// zero, as gitweb's regex leaves a non-match.
pub open spec fn offset_seconds(tz: Seq<char>) -> int {
    if tz.len() == 5 && (tz[0] == '+' || tz[0] == '-') && is_digit(tz[1]) && is_digit(tz[2])
        && is_digit(tz[3]) && is_digit(tz[4]) {
        let hours = (tz[1] as int - '0' as int) * 10 + (tz[2] as int - '0' as int);
        let minutes = (tz[3] as int - '0' as int) * 10 + (tz[4] as int - '0' as int);
        let magnitude = hours * 3600 + minutes * 60;
        if tz[0] == '-' {
            -magnitude
        } else {
            magnitude
        }
    } else {
        0
    }
}

/// The zone token gitweb displays: the given one, or `-0000` when empty.
pub open spec fn displayed_zone(tz: Seq<char>) -> Seq<char> {
    if tz.len() == 0 {
        "-0000"@
    } else {
        tz
    }
}

/// The epoch shifted into the zone still fits an `i64` (the shift overflows
/// only within a day of the `i64` range's ends).
pub open spec fn zone_fits(epoch: int, tz: Seq<char>) -> bool {
    i64::MIN <= epoch + offset_seconds(displayed_zone(tz)) <= i64::MAX
}

/// Hinnant's `civil_from_days`: the proleptic-Gregorian `(year, month, day)`
/// of a day count since 1970-01-01, with floor division throughout.
pub open spec fn civil_from_days_spec(days: int) -> (int, int, int) {
    let z = days + 719468;
    let era = z / 146097;
    let doe = z - era * 146097;
    let yoe = (doe - doe / 1460 + doe / 36524 - doe / 146096) / 365;
    let y = yoe + era * 400;
    let doy = doe - (365 * yoe + yoe / 4 - yoe / 100);
    let mp = (5 * doy + 2) / 153;
    let d = doy - (153 * mp + 2) / 5 + 1;
    let m = if mp < 10 {
        mp + 3
    } else {
        mp - 9
    };
    (if m <= 2 {
        y + 1
    } else {
        y
    }, m, d)
}

/// Hinnant's `days_from_civil`: the day count since 1970-01-01 of a civil
/// date — the inverse of [`civil_from_days_spec`].
pub open spec fn days_from_civil_spec(year: int, month: int, day: int) -> int {
    let y = if month <= 2 {
        year - 1
    } else {
        year
    };
    let era = y / 400;
    let yoe = y - era * 400;
    let doy = (153 * (if month > 2 {
        month - 3
    } else {
        month + 9
    }) + 2) / 5 + day - 1;
    let doe = yoe * 365 + yoe / 4 - yoe / 100 + doy;
    era * 146097 + doe - 719468
}

/// Civil calendar fields of one instant.
pub struct CivilView {
    pub year: int,
    pub month: int,
    pub day: int,
    pub hour: int,
    pub minute: int,
    pub second: int,
    /// 0 = Sunday … 6 = Saturday.
    pub weekday: int,
}

/// `gmtime` of an epoch: floor-divided into days and seconds of the day; day
/// zero (1970-01-01) was a Thursday.
pub open spec fn civil_of(epoch: int) -> CivilView {
    let days = epoch / 86400;
    let secs = epoch % 86400;
    let (y, m, d) = civil_from_days_spec(days);
    CivilView {
        year: y,
        month: m,
        day: d,
        hour: secs / 3600,
        minute: (secs % 3600) / 60,
        second: secs % 60,
        weekday: (days % 7 + 4) % 7,
    }
}

/// Civil (Gregorian) calendar fields for one instant.
#[derive(Debug, Clone, PartialEq, Eq)]
struct Civil {
    year: i64,
    month: u8,
    day: u8,
    hour: u8,
    minute: u8,
    second: u8,
    weekday: u8,
}

impl View for Civil {
    type V = CivilView;

    closed spec fn view(&self) -> CivilView {
        CivilView {
            year: self.year as int,
            month: self.month as int,
            day: self.day as int,
            hour: self.hour as int,
            minute: self.minute as int,
            second: self.second as int,
            weekday: self.weekday as int,
        }
    }
}

/// The most days month `m` has in any year: 29 for February, 30 for April,
/// June, September and November, 31 otherwise.
pub open spec fn month_days_bound(m: int) -> int {
    if m == 2 {
        29
    } else if m == 4 || m == 6 || m == 9 || m == 11 {
        30
    } else {
        31
    }
}

/// Whether `y` is a leap year of the proleptic Gregorian calendar.
pub open spec fn is_leap_year(y: int) -> bool {
    y % 4 == 0 && (y % 100 != 0 || y % 400 == 0)
}

/// The number of days of month `m` in year `y`.
pub open spec fn month_length(y: int, m: int) -> int {
    if m == 2 {
        if is_leap_year(y) {
            29
        } else {
            28
        }
    } else {
        month_days_bound(m)
    }
}

/// The last day of a March-based year of an era falls on the 366th day only
/// when the following January's year is a leap year.
proof fn lemma_leap_day(doe: u32, t: u32, yoe: u32, base: u32, doy: u32)
    by (bit_vector)
    requires
        doe < 146097u32,
        t == doe - doe / 1460u32 + doe / 36524u32 - doe / 146096u32,
        yoe == t / 365u32,
        base == 365u32 * yoe + yoe / 4u32 - yoe / 100u32,
        doy == doe - base,
        doy == 365u32,
    ensures
        yoe % 4u32 == 3u32,
        yoe % 100u32 != 99u32 || yoe == 399u32,
{
}

/// Converts a day count since the epoch to `(year, month, day)`.
pub(crate) fn civil_from_days(days: i64) -> (r: (i64, u8, u8))
    ensures
        (r.0 as int, r.1 as int, r.2 as int) == civil_from_days_spec(days as int),
        1 <= r.1 <= 12,
        1 <= r.2 <= 31,
        1 <= r.2 <= month_days_bound(r.1 as int),
        r.2 <= month_length(r.0 as int, r.1 as int),
{
    let whole: i64 = floor_div(days, 146_097);
    let rest: i64 = floor_mod(days, 146_097);
    let shifted: i64 = rest + 719_468;
    let era: i64 = whole + shifted / 146_097;
    let day_of_era: i64 = shifted % 146_097;
    assert(era == (days + 719468) / 146097 && day_of_era == (days + 719468) - era * 146097
        && 0 <= day_of_era < 146097) by (nonlinear_arith)
        requires
            whole == days / 146097,
            rest == days % 146097,
            0 <= rest < 146097,
            shifted == rest + 719468,
            era == whole + shifted / 146097,
            day_of_era == shifted % 146097,
    ;
    assert(-0x1_0000_0000_0000 <= era <= 0x1_0000_0000_0000) by (nonlinear_arith)
        requires
            whole == days / 146097,
            i64::MIN <= days <= i64::MAX,
            era == whole + shifted / 146097,
            0 <= shifted < 146097 * 6,
    ;
    let year_of_era: i64 = (day_of_era - day_of_era / 1460 + day_of_era / 36524 - day_of_era
        / 146_096) / 365;
    assert(0 <= year_of_era <= 399) by (nonlinear_arith)
        requires
            0 <= day_of_era < 146097,
            year_of_era == (day_of_era - day_of_era / 1460 + day_of_era / 36524 - day_of_era
                / 146096) / 365,
    ;
    let year: i64 = year_of_era + era * 400;
    let day_of_year: i64 = day_of_era - (365 * year_of_era + year_of_era / 4 - year_of_era / 100);
    assert(0 <= day_of_year <= 365) by (nonlinear_arith)
        requires
            0 <= day_of_era < 146097,
            year_of_era == (day_of_era - day_of_era / 1460 + day_of_era / 36524 - day_of_era
                / 146096) / 365,
            day_of_year == day_of_era - (365 * year_of_era + year_of_era / 4 - year_of_era / 100),
    ;
    let month_shifted: i64 = (5 * day_of_year + 2) / 153;
    assert(0 <= month_shifted <= 11);
    let day: i64 = day_of_year - (153 * month_shifted + 2) / 5 + 1;
    assert(1 <= day <= 31) by (nonlinear_arith)
        requires
            0 <= day_of_year <= 365,
            month_shifted == (5 * day_of_year + 2) / 153,
            day == day_of_year - (153 * month_shifted + 2) / 5 + 1,
    ;
    assert((month_shifted == 1 || month_shifted == 3 || month_shifted == 6 || month_shifted == 8 ==> day <= 30)
        && (month_shifted == 11 ==> day <= 29)) by (nonlinear_arith)
        requires
            0 <= day_of_year <= 365,
            month_shifted == (5 * day_of_year + 2) / 153,
            day == day_of_year - (153 * month_shifted + 2) / 5 + 1,
    ;
    let month: i64 = if month_shifted < 10 {
        month_shifted + 3
    } else {
        month_shifted - 9
    };
    proof {
        if month_shifted == 11 && day == 29 {
            assert(day_of_year == 365) by (nonlinear_arith)
                requires
                    month_shifted == 11,
                    day == day_of_year - (153 * month_shifted + 2) / 5 + 1,
                    day == 29,
            ;
            lemma_leap_day(
                day_of_era as u32,
                (day_of_era - day_of_era / 1460 + day_of_era / 36524 - day_of_era / 146_096) as u32,
                year_of_era as u32,
                (365 * year_of_era + year_of_era / 4 - year_of_era / 100) as u32,
                day_of_year as u32,
            );
            let k: int = year_of_era + 1;
            vstd::arithmetic::div_mod::lemma_mod_multiples_vanish(100 * era, k, 4);
            vstd::arithmetic::div_mod::lemma_mod_multiples_vanish(4 * era, k, 100);
            vstd::arithmetic::div_mod::lemma_mod_multiples_vanish(era as int, k, 400);
            assert(is_leap_year(year + 1));
        }
    }
    let year: i64 = if month <= 2 {
        year + 1
    } else {
        year
    };
    (year, month as u8, day as u8)
}

/// Converts a civil date back to a day count since the epoch.
pub(crate) fn days_from_civil(year: i64, month: u8, day: u8) -> (r: i64)
    requires
        -0x1_0000_0000_0000 <= year <= 0x1_0000_0000_0000,
        1 <= month <= 12,
        1 <= day <= 31,
    ensures
        r == days_from_civil_spec(year as int, month as int, day as int),
{
    let month: i64 = month as i64;
    let day: i64 = day as i64;
    let year: i64 = if month <= 2 {
        year - 1
    } else {
        year
    };
    let era: i64 = floor_div(year, 400);
    let year_of_era: i64 = year - era * 400;
    let day_of_year: i64 = (153 * (if month > 2 {
        month - 3
    } else {
        month + 9
    }) + 2) / 5 + day - 1;
    let day_of_era: i64 = year_of_era * 365 + year_of_era / 4 - year_of_era / 100 + day_of_year;
    era * 146_097 + day_of_era - 719_468
}

impl Civil {
    fn from_epoch(epoch: i64) -> (r: Self)
        ensures
            r@ == civil_of(epoch as int),
            1 <= r@.month <= 12,
            0 <= r@.weekday < 7,
            0 <= r@.hour < 24,
    {
        let days: i64 = floor_div(epoch, 86_400);
        let seconds: i64 = floor_mod(epoch, 86_400);
        let weekday: i64 = (floor_mod(days, 7) + 4) % 7;
        assert(-0x1_0000_0000_0000 <= days <= 0x1_0000_0000_0000) by (nonlinear_arith)
            requires
                days == epoch / 86400,
                i64::MIN <= epoch <= i64::MAX,
        ;
        let (year, month, day): (i64, u8, u8) = civil_from_days(days);
        Civil {
            year,
            month,
            day,
            hour: (seconds / 3_600) as u8,
            minute: ((seconds % 3_600) / 60) as u8,
            second: (seconds % 60) as u8,
            weekday: weekday as u8,
        }
    }
}

/// An absolute commit/tag timestamp seen through its fields.
pub struct TimestampView {
    pub epoch: i64,
    pub utc: CivilView,
    pub local: CivilView,
    pub timezone: Seq<char>,
}

/// The timestamp of an epoch in a zone: the UTC fields of the epoch, the
/// local fields of the epoch shifted by the zone's offset, and the displayed
/// zone token.
pub open spec fn timestamp_of(epoch: i64, tz: Seq<char>) -> TimestampView {
    let zone = displayed_zone(tz);
    TimestampView {
        epoch,
        utc: civil_of(epoch as int),
        local: civil_of(epoch + offset_seconds(zone)),
        timezone: zone,
    }
}

/// An absolute commit/tag timestamp, renderable in the forms gitweb uses.
#[derive(Debug, Clone, PartialEq, Eq)]
pub struct Timestamp {
    epoch: i64,
    utc: Civil,
    local: Civil,
    timezone: String,
}

impl View for Timestamp {
    type V = TimestampView;

    closed spec fn view(&self) -> TimestampView {
        TimestampView { epoch: self.epoch, utc: self.utc@, local: self.local@, timezone: self.timezone@ }
    }
}

fn parse_offset_seconds(tz: &str) -> (r: i64)
    ensures
        r == offset_seconds(tz@),
{
    let b: Vec<char> = chars_of(tz);
    if b.len() != 5 {
        return 0;
    }
    let sign: i64 = if b[0] == '-' {
        -1
    } else if b[0] == '+' {
        1
    } else {
        return 0;
    };
    if !(digit(b[1]) && digit(b[2]) && digit(b[3]) && digit(b[4])) {
        return 0;
    }
    let hours: i64 = (b[1] as u32 - '0' as u32) as i64 * 10 + (b[2] as u32 - '0' as u32) as i64;
    let minutes: i64 = (b[3] as u32 - '0' as u32) as i64 * 10 + (b[4] as u32 - '0' as u32) as i64;
    sign * (hours * 3_600 + minutes * 60)
}

/// A commit time that can be shown: the identity's time must fit its zone
/// (see [`zone_fits`]); otherwise a backend error.
pub fn check_commit_time(sig: &Signature) -> (r: Result<(), crate::error::DomainError>)
    ensures
        r is Ok <==> zone_fits(sig@.epoch as int, sig@.timezone),
        r matches Err(e) ==> e@ == crate::error::ErrorView::Backend("commit time out of range"@),
{
    if zone_fits_exec(sig.epoch(), sig.timezone()) {
        Ok(())
    } else {
        Err(crate::error::backend("commit time out of range"))
    }
}

/// Whether [`zone_fits`] holds of `epoch` in zone `tz`.
pub fn zone_fits_exec(epoch: i64, tz: &str) -> (r: bool)
    ensures
        r == zone_fits(epoch as int, tz@),
{
    let zone: &str = if tz.is_empty() {
        "-0000"
    } else {
        tz
    };
    let offset: i64 = parse_offset_seconds(zone);
    epoch.checked_add(offset).is_some()
}

/// The English abbreviation of month `m` (1–12).
pub open spec fn month_abbrev(m: int) -> Seq<char> {
    if m == 1 {
        "Jan"@
    } else if m == 2 {
        "Feb"@
    } else if m == 3 {
        "Mar"@
    } else if m == 4 {
        "Apr"@
    } else if m == 5 {
        "May"@
    } else if m == 6 {
        "Jun"@
    } else if m == 7 {
        "Jul"@
    } else if m == 8 {
        "Aug"@
    } else if m == 9 {
        "Sep"@
    } else if m == 10 {
        "Oct"@
    } else if m == 11 {
        "Nov"@
    } else {
        "Dec"@
    }
}

/// The English abbreviation of weekday `w` (0 = Sunday).
pub open spec fn weekday_abbrev(w: int) -> Seq<char> {
    if w == 0 {
        "Sun"@
    } else if w == 1 {
        "Mon"@
    } else if w == 2 {
        "Tue"@
    } else if w == 3 {
        "Wed"@
    } else if w == 4 {
        "Thu"@
    } else if w == 5 {
        "Fri"@
    } else {
        "Sat"@
    }
}

fn month_name(m: u8) -> (r: &'static str)
    ensures
        r@ == month_abbrev(m as int),
{
    if m == 1 {
        "Jan"
    } else if m == 2 {
        "Feb"
    } else if m == 3 {
        "Mar"
    } else if m == 4 {
        "Apr"
    } else if m == 5 {
        "May"
    } else if m == 6 {
        "Jun"
    } else if m == 7 {
        "Jul"
    } else if m == 8 {
        "Aug"
    } else if m == 9 {
        "Sep"
    } else if m == 10 {
        "Oct"
    } else if m == 11 {
        "Nov"
    } else {
        "Dec"
    }
}

fn weekday_name(w: u8) -> (r: &'static str)
    ensures
        r@ == weekday_abbrev(w as int),
{
    if w == 0 {
        "Sun"
    } else if w == 1 {
        "Mon"
    } else if w == 2 {
        "Tue"
    } else if w == 3 {
        "Wed"
    } else if w == 4 {
        "Thu"
    } else if w == 5 {
        "Fri"
    } else {
        "Sat"
    }
}

/// Two-digit zero-padded (`{:02}`).
pub open spec fn two(n: int) -> Seq<char> {
    zero_padded(n, 2)
}

/// `Sun, 7 Jun 2026 14:30:45 <zone>` over the civil fields `c`.
pub open spec fn rfc2822_form(c: CivilView, zone: Seq<char>) -> Seq<char> {
    weekday_abbrev(c.weekday) + ", "@ + decimal(c.day as nat) + " "@ + month_abbrev(c.month) + " "@
        + space_padded(c.year, 4) + " "@ + two(c.hour) + ":"@ + two(c.minute) + ":"@ + two(
        c.second,
    ) + " "@ + zone
}

/// `2026-06-07T14:30:45Z` over the UTC fields `c`.
pub open spec fn iso8601_form(c: CivilView) -> Seq<char> {
    zero_padded(c.year, 4) + "-"@ + two(c.month) + "-"@ + two(c.day) + "T"@ + two(c.hour) + ":"@
        + two(c.minute) + ":"@ + two(c.second) + "Z"@
}

/// `2026-06-07 16:30:45 +0200` over the local fields `c`.
pub open spec fn iso_tz_form(c: CivilView, zone: Seq<char>) -> Seq<char> {
    zero_padded(c.year, 4) + "-"@ + two(c.month) + "-"@ + two(c.day) + " "@ + two(c.hour) + ":"@
        + two(c.minute) + ":"@ + two(c.second) + " "@ + zone
}

/// `YYYY-MM-DD` over the UTC fields `c`.
pub open spec fn date_form(c: CivilView) -> Seq<char> {
    zero_padded(c.year, 4) + "-"@ + two(c.month) + "-"@ + two(c.day)
}

fn push_two(out: &mut Vec<char>, n: u8)
    ensures
        final(out)@ == old(out)@ + two(n as int),
{
    let d: Vec<char> = fmt_zero_padded(n as i64, 2);
    push_all(out, &d);
}

fn rfc2822_of(c: &Civil, zone: &str) -> (r: String)
    ensures
        r@ == rfc2822_form(c@, zone@),
{
    let mut out: Vec<char> = Vec::new();
    push_str(&mut out, weekday_name(c.weekday));
    push_str(&mut out, ", ");
    let day: Vec<char> = decimal_chars(c.day as u128);
    push_all(&mut out, &day);
    push_str(&mut out, " ");
    push_str(&mut out, month_name(c.month));
    push_str(&mut out, " ");
    let year: Vec<char> = fmt_space_padded(c.year, 4);
    push_all(&mut out, &year);
    push_str(&mut out, " ");
    push_two(&mut out, c.hour);
    push_str(&mut out, ":");
    push_two(&mut out, c.minute);
    push_str(&mut out, ":");
    push_two(&mut out, c.second);
    push_str(&mut out, " ");
    push_str(&mut out, zone);
    string_of(out.as_slice())
}

fn date_chars(c: &Civil) -> (r: Vec<char>)
    ensures
        r@ == date_form(c@),
{
    let mut out: Vec<char> = fmt_zero_padded(c.year, 4);
    push_str(&mut out, "-");
    push_two(&mut out, c.month);
    push_str(&mut out, "-");
    push_two(&mut out, c.day);
    out
}

fn clock_chars(out: &mut Vec<char>, c: &Civil)
    ensures
        final(out)@ == old(out)@ + two(c@.hour) + ":"@ + two(c@.minute) + ":"@ + two(c@.second),
{
    push_two(out, c.hour);
    push_str(out, ":");
    push_two(out, c.minute);
    push_str(out, ":");
    push_two(out, c.second);
}

impl Timestamp {
    /// Builds a timestamp from a git epoch and a `+HHMM`/`-HHMM` offset; an
    /// empty zone is `-0000`, an unparseable one is shown verbatim with a zero
    /// offset (see [`timestamp_of`]).
    pub fn new(epoch: i64, tz: &str) -> (r: Self)
        requires
            zone_fits(epoch as int, tz@),
        ensures
            r@ == timestamp_of(epoch, tz@),
    {
        let chars: Vec<char> = chars_of(tz);
        let timezone: &str = if chars.len() == 0 {
            "-0000"
        } else {
            tz
        };
        let offset: i64 = parse_offset_seconds(timezone);
        Timestamp {
            epoch,
            utc: Civil::from_epoch(epoch),
            local: Civil::from_epoch(epoch + offset),
            timezone: timezone.to_owned(),
        }
    }

    /// The originating Unix epoch.
    pub fn epoch(&self) -> (r: i64)
        ensures
            r == self@.epoch,
    {
        self.epoch
    }

    /// Builds a timestamp from a bare epoch (no zone), as the feeds do.
    pub fn from_epoch(epoch: i64) -> (r: Self)
        ensures
            r@ == timestamp_of(epoch, ""@),
    {
        proof {
            reveal_strlit("");
            reveal_strlit("-0000");
            assert(displayed_zone(""@) == "-0000"@);
            assert(!is_digit('-'));
            assert(offset_seconds("-0000"@) == 0);
        }
        Timestamp::new(epoch, "")
    }

    /// Builds a timestamp from a parsed identity's epoch and zone.
    pub fn from_signature(sig: &Signature) -> (r: Self)
        requires
            zone_fits(sig@.epoch as int, sig@.timezone),
        ensures
            r@ == timestamp_of(sig@.epoch, sig@.timezone),
    {
        Timestamp::new(sig.epoch(), sig.timezone())
    }

    /// The RFC-2822 form in UTC, e.g. `Sun, 7 Jun 2026 14:30:45 +0000`.
    pub fn rfc2822(&self) -> (r: String)
        ensures
            r@ == rfc2822_form(self@.utc, "+0000"@),
    {
        rfc2822_of(&self.utc, "+0000")
    }

    /// The RFC-2822 form in the commit's own zone, with the real offset token.
    pub fn rfc2822_local(&self) -> (r: String)
        ensures
            r@ == rfc2822_form(self@.local, self@.timezone),
    {
        rfc2822_of(&self.local, self.timezone.as_str())
    }

    /// The ISO-8601 form in UTC, e.g. `2026-06-07T14:30:45Z`.
    pub fn iso8601(&self) -> (r: String)
        ensures
            r@ == iso8601_form(self@.utc),
    {
        let mut out: Vec<char> = date_chars(&self.utc);
        push_str(&mut out, "T");
        clock_chars(&mut out, &self.utc);
        push_str(&mut out, "Z");
        string_of(out.as_slice())
    }

    /// The civil form in the commit's own zone, e.g.
    /// `2026-06-07 16:30:45 +0200` — gitweb's `iso-tz`.
    pub fn iso_tz(&self) -> (r: String)
        ensures
            r@ == iso_tz_form(self@.local, self@.timezone),
    {
        let mut out: Vec<char> = date_chars(&self.local);
        push_str(&mut out, " ");
        clock_chars(&mut out, &self.local);
        push_str(&mut out, " ");
        push_str(&mut out, self.timezone.as_str());
        string_of(out.as_slice())
    }

    /// The bare UTC calendar date `YYYY-MM-DD` (gitweb's `age_string_date`).
    pub fn utc_date(&self) -> (r: String)
        ensures
            r@ == date_form(self@.utc),
    {
        let out: Vec<char> = date_chars(&self.utc);
        string_of(out.as_slice())
    }

    /// The local hour, as shown in the `(HH:MM tz)` hint.
    pub fn local_hour(&self) -> (r: u8)
        ensures
            r == self@.local.hour,
    {
        self.local.hour
    }

    /// The local minute, as shown in the `(HH:MM tz)` hint.
    pub fn local_minute(&self) -> (r: u8)
        ensures
            r == self@.local.minute,
    {
        self.local.minute
    }

    /// The displayed timezone offset token.
    pub fn timezone(&self) -> (r: &str)
        ensures
            r@ == self@.timezone,
    {
        self.timezone.as_str()
    }

    /// Whether the local hour is before 06:00 — gitweb's `atnight`.
    pub fn is_at_night(&self) -> (r: bool)
        ensures
            r == (self@.local.hour < 6),
    {
        self.local.hour < 6
    }
}

/// The zone rules of a timestamp: it keeps its epoch; an empty zone is shown
/// as `-0000` and reads like it; a zone that is not `+HHMM`/`-HHMM` is shown
/// verbatim with no offset, its local time the UTC time.
pub proof fn lemma_timestamp_zone_rules(epoch: i64, tz: Seq<char>)
    ensures
        timestamp_of(epoch, tz).epoch == epoch,
        timestamp_of(epoch, ""@) == timestamp_of(epoch, "-0000"@),
        timestamp_of(epoch, ""@).timezone == "-0000"@,
        timestamp_of(epoch, ""@).local == timestamp_of(epoch, ""@).utc,
        tz.len() > 0 && tz.len() != 5 ==> timestamp_of(epoch, tz).timezone == tz && timestamp_of(epoch, tz).local
            == timestamp_of(epoch, tz).utc,
{
    reveal_strlit("");
    reveal_strlit("-0000");
    assert(!is_digit('-'));
    assert(offset_seconds("-0000"@) == 0);
}

/// A zone west of UTC is the mirror of the same zone east of it: `-HHMM`
/// is minus the offset of `+HHMM`, an east offset is never negative and is
/// zero only for `+0000`, so the local time of a `-HHMM` stamp is that many
/// seconds before UTC. `HH` counts whole hours and `MM` minutes below an
/// hour.
pub proof fn lemma_zone_sign(epoch: i64, d: Seq<char>)
    requires
        d.len() == 4,
        forall|i: int| 0 <= i < 4 ==> is_digit(#[trigger] d[i]),
    ensures
        offset_seconds(seq!['-'] + d) == -offset_seconds(seq!['+'] + d),
        offset_seconds(seq!['+'] + d) >= 0,
        offset_seconds(seq!['+'] + d) == 0 <==> (forall|i: int| 0 <= i < 4 ==> #[trigger] d[i] == '0'),
        timestamp_of(epoch, seq!['-'] + d).local == civil_of(epoch - offset_seconds(seq!['+'] + d)),
        d[2] == '0' && d[3] == '0' ==> offset_seconds(seq!['+'] + d) % 3600 == 0,
        d[0] == '0' && d[1] == '0' ==> offset_seconds(seq!['+'] + d) < 100 * 60 && offset_seconds(seq!['+'] + d) % 60 == 0,
{
    let m = seq!['-'] + d;
    let p = seq!['+'] + d;
    assert(m.len() == 5 && p.len() == 5);
    assert(m[1] == d[0] && m[2] == d[1] && m[3] == d[2] && m[4] == d[3]);
    assert(p[1] == d[0] && p[2] == d[1] && p[3] == d[2] && p[4] == d[3]);
    assert(is_digit(d[0]) && is_digit(d[1]) && is_digit(d[2]) && is_digit(d[3]));
    let h = (d[0] as int - '0' as int) * 10 + (d[1] as int - '0' as int);
    let mi = (d[2] as int - '0' as int) * 10 + (d[3] as int - '0' as int);
    assert(offset_seconds(p) == h * 3600 + mi * 60);
    assert(0 <= mi < 100);
    assert((h * 3600) % 3600 == 0) by (nonlinear_arith)
        requires
            h >= 0,
    ;
    assert((mi * 60) % 60 == 0) by (nonlinear_arith)
        requires
            mi >= 0,
    ;
    if offset_seconds(p) == 0 {
        assert forall|i: int| 0 <= i < 4 implies #[trigger] d[i] == '0' by {
            assert(is_digit(d[i]));
        }
    }
}

/// Converting a day count to a civil date and back gives the day count again:
/// [`days_from_civil_spec`] inverts [`civil_from_days_spec`] on every day.
pub proof fn lemma_civil_round_trip(days: int)
    ensures
        ({
            let (y, m, d) = civil_from_days_spec(days);
            days_from_civil_spec(y, m, d) == days
        }),
{
    let z = days + 719468;
    let era = z / 146097;
    let doe = z - era * 146097;
    assert(0 <= doe < 146097) by (nonlinear_arith)
        requires
            era == z / 146097,
            doe == z - era * 146097,
    ;
    let yoe = (doe - doe / 1460 + doe / 36524 - doe / 146096) / 365;
    assert(0 <= yoe <= 399) by (nonlinear_arith)
        requires
            0 <= doe < 146097,
            yoe == (doe - doe / 1460 + doe / 36524 - doe / 146096) / 365,
    ;
    let y = yoe + era * 400;
    let doy = doe - (365 * yoe + yoe / 4 - yoe / 100);
    assert(0 <= doy <= 365) by (nonlinear_arith)
        requires
            0 <= doe < 146097,
            yoe == (doe - doe / 1460 + doe / 36524 - doe / 146096) / 365,
            doy == doe - (365 * yoe + yoe / 4 - yoe / 100),
    ;
    let mp = (5 * doy + 2) / 153;
    let d = doy - (153 * mp + 2) / 5 + 1;
    let m = if mp < 10 {
        mp + 3
    } else {
        mp - 9
    };
    let year = if m <= 2 {
        y + 1
    } else {
        y
    };
    assert(civil_from_days_spec(days) == (year, m, d));
    let y2 = if m <= 2 {
        year - 1
    } else {
        year
    };
    assert(y2 == y);
    assert(y / 400 == era && y - era * 400 == yoe) by (nonlinear_arith)
        requires
            y == yoe + era * 400,
            0 <= yoe <= 399,
    ;
    let mp2 = if m > 2 {
        m - 3
    } else {
        m + 9
    };
    assert(0 <= mp <= 11) by (nonlinear_arith)
        requires
            0 <= doy <= 365,
            mp == (5 * doy + 2) / 153,
    ;
    assert(mp2 == mp);
    let doy2 = (153 * mp2 + 2) / 5 + d - 1;
    assert(doy2 == doy);
    assert(days_from_civil_spec(year, m, d) == era * 146097 + (yoe * 365 + yoe / 4 - yoe / 100
        + doy2) - 719468);
}

} // verus!
