//! Sunrise and sunset of one solar day.
//!
//! Instants are whole seconds since 1970-01-01T00:00:00Z; days are counted
//! from 2000-01-01. The sunrise equation yields two numbers for a day and a
//! place: the day on which the sun crosses the meridian, and the hour angle,
//! the arc from sunrise to that crossing. This module turns the two into
//! instants, and says so when there are none.

use vstd::prelude::*;

verus! {

/// The instant 2000-01-01T00:00:00Z.
pub const EPOCH_2000: i64 = 946_684_800;

/// Seconds in a day.
pub const SECONDS_PER_DAY: i64 = 86_400;

/// The longest arc from sunrise to transit: half a day, in minutes. The hour
/// angle lies between 0 and 180 degrees, and a degree takes four minutes.
pub const HALF_DAY_MINUTES: i32 = 720;

/// The hour angle is undefined: at this place the sun does not cross the
/// horizon on the day asked for.
#[derive(Clone, Copy, Debug, PartialEq, Eq, Structural)]
pub struct DomainError;

/// The day an instant falls on, counted from 2000-01-01.
pub open spec fn day_of(instant: int) -> int {
    (instant - EPOCH_2000) / (SECONDS_PER_DAY as int)
}

/// Noon of day `transit_day`.
pub open spec fn transit_noon(transit_day: int) -> int {
    EPOCH_2000 + transit_day * SECONDS_PER_DAY + SECONDS_PER_DAY / 2
}

/// Whether an hour angle, given in minutes of time, is one: it is defined
/// and spans at most half a day.
pub open spec fn is_hour_angle(minutes: Option<i32>) -> bool {
    minutes matches Some(m) && 0 <= m <= HALF_DAY_MINUTES
}

/// The day an instant falls on, counted from 2000-01-01, also for instants
/// before that date.
pub fn days_since_2000(instant: i64) -> (day: i64)
    ensures
        day == day_of(instant as int),
{
    let since: i128 = instant as i128 - EPOCH_2000 as i128;
    if since >= 0 {
        (since / 86_400) as i64
    } else {
        let back: i128 = -since;
        let days: i128 = (back + 86_399) / 86_400;
        assert(since as int / 86_400 == -(days as int)) by (nonlinear_arith)
            requires
                since < 0,
                back == -since,
                days == (back + 86_399) / 86_400,
        ;
        (-days) as i64
    }
}

/// Sunrise and sunset of the solar day whose transit falls on day
/// `transit_day`: noon of that day less and plus the hour angle.
/// `half_day_minutes` is the hour angle in minutes of time, or `None` where
/// the sunrise equation has no solution.
pub fn sun_times(transit_day: i32, half_day_minutes: Option<i32>) -> (out: Result<
    (i64, i64),
    DomainError,
>)
    ensures
        out is Ok <==> is_hour_angle(half_day_minutes),
        out matches Ok((rise, set)) ==> {
            &&& rise == transit_noon(transit_day as int) - 60 * half_day_minutes.unwrap()
            &&& set == transit_noon(transit_day as int) + 60 * half_day_minutes.unwrap()
        },
{
    match half_day_minutes {
        Some(minutes) => {
            if minutes < 0 || minutes > HALF_DAY_MINUTES {
                return Err(DomainError);
            }
            let noon: i64 = EPOCH_2000 + (transit_day as i64) * SECONDS_PER_DAY + SECONDS_PER_DAY
                / 2;
            let arc: i64 = 60 * (minutes as i64);
            Ok((noon - arc, noon + arc))
        },
        None => Err(DomainError),
    }
}

/// Sunrise comes no later than sunset, the two lie symmetric about noon of
/// the transit day, and no more than a day apart.
pub proof fn lemma_sun_times_window(transit_day: int, minutes: int, rise: int, set: int)
    requires
        0 <= minutes <= HALF_DAY_MINUTES,
        rise == transit_noon(transit_day) - 60 * minutes,
        set == transit_noon(transit_day) + 60 * minutes,
    ensures
        rise <= transit_noon(transit_day) <= set,
        rise + set == 2 * transit_noon(transit_day),
        set - rise <= SECONDS_PER_DAY,
{
}

} // verus!
