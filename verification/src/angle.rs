//! The sun angle: where on the day circle an instant lies.
//!
//! The circle has three bands. From sunrise to sunset the angle runs from 90
//! to 270. From sunset to the next sunrise it runs on from 270, through 360,
//! which is 0 again, to 90. An instant before today's sunrise lies in the
//! night that began at the sunset before, taken to be a day before today's.
//!
//! The conventions, so that none is left to guesswork: sunrise and sunset
//! themselves belong to the day; within a band the angle is rounded down; and
//! the night is one band on either side of midnight, so the angle is 359 up
//! to the middle of the night and 0 from then on, never negative and never
//! 360. Instants are whole seconds.

use vstd::prelude::*;
use crate::sunrise::SECONDS_PER_DAY;

verus! {

/// A position on the day circle, from 0 up to but not including 360.
pub type Angle = i64;

/// How far `now` has come from `lo` to `hi` on a scale of 180, rounded down
/// and held to the ends: 0 at or before `lo`, 180 at or after `hi`. Where the
/// ends are the other way round, so is the scale. Where they coincide, it is
/// 180 after them and 0 otherwise.
pub open spec fn band_angle(now: int, lo: int, hi: int) -> int {
    let span = hi - lo;
    let elapsed = now - lo;
    if span == 0 {
        if elapsed > 0 {
            180
        } else {
            0
        }
    } else {
        let e = if span > 0 {
            elapsed
        } else {
            -elapsed
        };
        let s = if span > 0 {
            span
        } else {
            -span
        };
        if e <= 0 {
            0
        } else if e >= s {
            180
        } else {
            (180 * e) / s
        }
    }
}

/// The angle of `now`, given the sunrise and sunset of its day.
pub open spec fn sun_angle_of(now: int, sunrise: int, sunset: int) -> int {
    if now < sunrise {
        (270 + band_angle(now, sunset - SECONDS_PER_DAY, sunrise)) % 360
    } else if now > sunset {
        (270 + band_angle(now, sunset, sunrise + SECONDS_PER_DAY)) % 360
    } else {
        90 + band_angle(now, sunrise, sunset)
    }
}

/// A band covers half the circle.
pub proof fn lemma_band_angle_bounds(now: int, lo: int, hi: int)
    ensures
        0 <= band_angle(now, lo, hi) <= 180,
{
    let span = hi - lo;
    let elapsed = now - lo;
    if span != 0 {
        let e = if span > 0 {
            elapsed
        } else {
            -elapsed
        };
        let s = if span > 0 {
            span
        } else {
            -span
        };
        if 0 < e < s {
            assert(0 <= (180 * e) / s < 180) by (nonlinear_arith)
                requires
                    0 < e < s,
            ;
        }
    }
}

fn band(now: i128, lo: i128, hi: i128) -> (a: Angle)
    requires
        -0x1_0000_0000_0000_0000 <= now <= 0x1_0000_0000_0000_0000,
        -0x1_0000_0000_0000_0000 <= lo <= 0x1_0000_0000_0000_0000,
        -0x1_0000_0000_0000_0000 <= hi <= 0x1_0000_0000_0000_0000,
    ensures
        a == band_angle(now as int, lo as int, hi as int),
        0 <= a <= 180,
{
    proof {
        lemma_band_angle_bounds(now as int, lo as int, hi as int);
    }
    let span: i128 = hi - lo;
    let elapsed: i128 = now - lo;
    if span == 0 {
        if elapsed > 0 {
            180
        } else {
            0
        }
    } else {
        let e: i128 = if span > 0 {
            elapsed
        } else {
            -elapsed
        };
        let s: i128 = if span > 0 {
            span
        } else {
            -span
        };
        if e <= 0 {
            0
        } else if e >= s {
            180
        } else {
            ((180 * e) / s) as i64
        }
    }
}

/// How far `now` has come from `min_date` to `max_date`, on a scale of 180.
pub fn get_angle(now: i64, min_date: i64, max_date: i64) -> (a: Angle)
    ensures
        a == band_angle(now as int, min_date as int, max_date as int),
        0 <= a <= 180,
{
    band(now as i128, min_date as i128, max_date as i128)
}

/// The angle of the instant `date`, given the sunrise and sunset of its day.
pub fn sun_angle(date: i64, sunrise: i64, sunset: i64) -> (a: Angle)
    ensures
        a == sun_angle_of(date as int, sunrise as int, sunset as int),
        0 <= a < 360,
{
    if date < sunrise {
        (270 + band(date as i128, sunset as i128 - 86_400, sunrise as i128)) % 360
    } else if date > sunset {
        (270 + band(date as i128, sunset as i128, sunrise as i128 + 86_400)) % 360
    } else {
        90 + band(date as i128, sunrise as i128, sunset as i128)
    }
}

/// Within a band the angle never runs backwards as time goes on.
pub proof fn lemma_band_angle_monotone(earlier: int, later: int, lo: int, hi: int)
    requires
        lo < hi,
        earlier <= later,
    ensures
        band_angle(earlier, lo, hi) <= band_angle(later, lo, hi),
{
    lemma_band_angle_bounds(earlier, lo, hi);
    lemma_band_angle_bounds(later, lo, hi);
    let s = hi - lo;
    let e1 = earlier - lo;
    let e2 = later - lo;
    if 0 < e1 && e2 < s {
        assert((180 * e1) / s <= (180 * e2) / s) by (nonlinear_arith)
            requires
                0 < e1 <= e2,
                s > 0,
        ;
    }
}

/// By day the angle lies in the half circle from 90 to 270: it is 90 at
/// sunrise, 270 at sunset, and 180 midway between them.
pub proof fn lemma_day_band(now: int, sunrise: int, sunset: int)
    requires
        sunrise < sunset,
        sunrise <= now <= sunset,
    ensures
        90 <= sun_angle_of(now, sunrise, sunset) <= 270,
        now == sunrise ==> sun_angle_of(now, sunrise, sunset) == 90,
        now == sunset ==> sun_angle_of(now, sunrise, sunset) == 270,
        2 * now == sunrise + sunset ==> sun_angle_of(now, sunrise, sunset) == 180,
{
    lemma_band_angle_bounds(now, sunrise, sunset);
    let e = now - sunrise;
    let s = sunset - sunrise;
    if 2 * now == sunrise + sunset {
        assert((180 * e) / s == 90) by (nonlinear_arith)
            requires
                2 * e == s,
                s > 0,
        ;
    }
}

/// By night the angle lies outside the open half circle of the day, and it
/// is the same whether the night is reckoned from the sunset before or, a
/// day on, from today's: the circle closes.
pub proof fn lemma_night_band(now: int, sunrise: int, sunset: int)
    requires
        sunrise <= sunset,
        now < sunrise,
        now + SECONDS_PER_DAY > sunset,
    ensures
        sun_angle_of(now, sunrise, sunset) == sun_angle_of(now + SECONDS_PER_DAY, sunrise, sunset),
        sun_angle_of(now, sunrise, sunset) <= 90 || sun_angle_of(now, sunrise, sunset) >= 270,
        0 <= sun_angle_of(now, sunrise, sunset) < 360,
{
    lemma_band_angle_bounds(now, sunset - SECONDS_PER_DAY, sunrise);
    assert(band_angle(now, sunset - SECONDS_PER_DAY, sunrise) == band_angle(
        now + SECONDS_PER_DAY,
        sunset,
        sunrise + SECONDS_PER_DAY,
    ));
}

} // verus!
