use vstd::prelude::*;

use crate::scalar::{Scalar, ScalarArith};

verus! {

/// A calendar date in the proleptic Gregorian calendar.
#[derive(Clone, Copy, PartialEq, Eq, Structural, Debug)]
pub struct Date {
    pub year: i32,
    pub month: u32,
    pub day: u32,
}

/// A calendar date with a wall-clock time of day.
#[derive(Clone, Copy, PartialEq, Eq, Structural, Debug)]
pub struct DateTime {
    pub date: Date,
    pub hour: u32,
    pub minute: u32,
    pub second: u32,
}

/// The dates the day-number formulas are stated for.
pub open spec fn valid_date(d: Date) -> bool {
    &&& -4700 <= d.year <= 1_000_000
    &&& 1 <= d.month <= 12
    &&& 1 <= d.day <= 31
}

/// The year shift for January and February, which the day-number formula
/// counts as months 13 and 14 of the preceding year.
pub open spec fn month_shift(month: int) -> int {
    if month <= 2 {
        -1
    } else {
        0
    }
}

/// The Julian day number of a Gregorian date: the standard integer
/// formula, with every division a flooring division of non-negative
/// operands.
pub open spec fn spec_julian_day(year: int, month: int, day: int) -> int {
    let a = month_shift(month);
    (1461 * (year + 4800 + a)) / 4 + (367 * (month - 2 - 12 * a)) / 12 - (3 * ((year + 4900 + a)
        / 100)) / 4 + day - 32075
}

/// The Gregorian date of a Julian day number: the standard integer
/// algorithm for the Gregorian calendar.
pub open spec fn spec_gregorian_date(day: int) -> Date {
    let f = day + 1401 + (((4 * day + 274277) / 146097) * 3) / 4 - 38;
    let e = 4 * f + 3;
    let g = (e % 1461) / 4;
    let h = 5 * g + 2;
    let d = (h % 153) / 5 + 1;
    let m = (h / 153 + 2) % 12 + 1;
    let y = e / 1461 - 4716 + (12 + 2 - m) / 12;
    Date { year: y as i32, month: m as u32, day: d as u32 }
}

/// Flooring division of a non-negative value by a positive one, carried
/// out on the unsigned machine type.
fn div_nonneg(a: i64, b: i64) -> (r: i64)
    requires
        0 <= a,
        0 < b,
    ensures
        r == a as int / b as int,
{
    ((a as u64) / (b as u64)) as i64
}

/// The Julian day number of `date`.
pub fn convert_date_to_julian_day(date: &Date) -> (r: i64)
    requires
        valid_date(*date),
    ensures
        r == spec_julian_day(date.year as int, date.month as int, date.day as int),
{
    let year = date.year as i64;
    let month = date.month as i64;
    let day = date.day as i64;
    let a: i64 = if month <= 2 {
        -1
    } else {
        0
    };
    let t1 = div_nonneg(1461 * (year + 4800 + a), 4);
    let t2 = div_nonneg(367 * (month - 2 - 12 * a), 12);
    let t3 = div_nonneg(3 * div_nonneg(year + 4900 + a, 100), 4);
    t1 + t2 - t3 + day - 32075
}

/// The Gregorian date of Julian day number `day`.
pub fn convert_julian_day_to_date(day: i64) -> (r: Date)
    requires
        0 <= day <= 0x1_0000_0000,
    ensures
        r == spec_gregorian_date(day as int),
{
    let day_u = day as u64;
    let f: u64 = day_u + 1401 + ((4 * day_u + 274277) / 146097) * 3 / 4 - 38;
    let e: u64 = 4 * f + 3;
    let g: u64 = (e % 1461) / 4;
    let h: u64 = 5 * g + 2;
    let d: u64 = (h % 153) / 5 + 1;
    let m: u64 = (h / 153 + 2) % 12 + 1;
    let y: i64 = (e / 1461) as i64 - 4716 + div_nonneg(12 + 2 - m as i64, 12);
    Date { year: y as i32, month: m as u32, day: d as u32 }
}

/// The Julian date (day number and day fraction) of a wall-clock moment,
/// evaluated with the host's arithmetic. Noon is the start of the Julian
/// day: hours before noon fall in the preceding Julian day's fraction.
pub fn convert_datetime_to_julian_date<A: ScalarArith>(arith: &A, datetime: &DateTime) -> (r:
    Scalar)
    requires
        valid_date(datetime.date),
        datetime.hour <= 23,
{
    let julian_day_number = convert_date_to_julian_day(&datetime.date);
    arith.add(
        arith.add(
            arith.add(
                arith.from_u32(julian_day_number as u32),
                arith.div(
                    arith.sub(arith.from_u32(datetime.hour), arith.from_u32(12)),
                    arith.from_u32(24),
                ),
            ),
            arith.div(arith.from_u32(datetime.minute), arith.from_u32(1440)),
        ),
        arith.div(arith.from_u32(datetime.second), arith.from_u32(86400)),
    )
}

/// The wall-clock moment of a Julian date, evaluated with the host's
/// arithmetic. The day fraction is unfolded into hours, minutes and
/// seconds, nudging the seconds up across a small representation gap and
/// carrying a computed 24th hour into the next day.
pub fn convert_julian_date_to_datetime<A: ScalarArith>(arith: &A, julian_date: Scalar) -> (r:
    DateTime)
{
    let day_number = arith.to_u32(julian_date);
    let time = arith.sub(julian_date, arith.from_u32(day_number));

    let mut hour = arith.to_u32(
        arith.add(arith.mul(time, arith.from_u32(24)), arith.from_u32(12)),
    );
    let time = arith.sub(
        time,
        arith.div(arith.sub(arith.from_u32(hour), arith.from_u32(12)), arith.from_u32(24)),
    );
    let minute = arith.to_u32(arith.mul(time, arith.from_u32(1440)));
    let time = arith.sub(time, arith.div(arith.from_u32(minute), arith.from_u32(1440)));
    let mut second = arith.mul(time, arith.from_u32(86400));

    let one = arith.from_u32(1);
    let thousandth = arith.div(one, arith.from_u32(1000));
    if arith.lt(arith.sub(arith.add(arith.floor(second), one), second), thousandth) && arith.lt(
        arith.round(second),
        arith.from_u32(60),
    ) {
        second = arith.add(second, one);
    }

    let mut date = convert_julian_day_to_date(day_number as i64);
    if hour >= 24 {
        date = convert_julian_day_to_date(day_number as i64 + 1);
        hour = hour - 24;
    }

    DateTime { date, hour, minute, second: arith.to_u32(second) }
}

} // verus!
