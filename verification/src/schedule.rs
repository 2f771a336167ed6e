//! What the sun calls for: the variant of the moment and the time to sleep.
//!
//! All instants are seconds since the epoch, signed and 64 bits wide. A
//! difference of two of them may not fit that width, so waits are stated over
//! mathematical integers and computed without overflow.

use vstd::prelude::*;
use crate::theme::ThemeVariant;

verus! {

/// Where an instant lies relative to a day's sunrise and sunset.
#[derive(Debug, Clone, Copy, PartialEq, Eq, Structural)]
pub enum DayPhase {
    /// Before the day's sunrise.
    BeforeSunrise,
    /// From sunrise on, up to but not including sunset.
    Daylight,
    /// At sunset or later.
    AfterSunset,
}

/// A decision of one cycle: the variant to apply and the seconds to sleep.
#[derive(Debug, Clone, Copy, PartialEq, Eq, Structural)]
pub struct Plan {
    pub variant: ThemeVariant,
    pub wait_seconds: u64,
}

/// The phase of `now` in a day whose sun rises at `sunrise` and sets at
/// `sunset`. Daylight is the half-open interval from sunrise to sunset.
pub open spec fn day_phase(now: int, sunrise: int, sunset: int) -> DayPhase {
    if now < sunrise {
        DayPhase::BeforeSunrise
    } else if now < sunset {
        DayPhase::Daylight
    } else {
        DayPhase::AfterSunset
    }
}

/// The variant that the sun calls for: light in daylight, dark otherwise.
pub open spec fn desired_variant(now: int, sunrise: int, sunset: int) -> ThemeVariant {
    if sunrise <= now < sunset {
        ThemeVariant::Light
    } else {
        ThemeVariant::Dark
    }
}

/// The variant to apply when the sun calls for `desired` and the
/// configuration asks, or does not ask, for the inverse.
pub open spec fn effective_variant(desired: ThemeVariant, invert: bool) -> ThemeVariant {
    if invert {
        desired.inverted()
    } else {
        desired
    }
}

/// A raw wait brought into the range from zero to the refresh period.
pub open spec fn clamped_wait(raw_wait: int, refresh_period: int) -> int {
    if raw_wait <= 0 {
        0
    } else if raw_wait >= refresh_period {
        refresh_period
    } else {
        raw_wait
    }
}

/// The decision for an instant before or at `deadline`, the next change of
/// the desired variant.
pub open spec fn plan_for(
    variant: ThemeVariant,
    now: int,
    deadline: int,
    refresh_period: int,
) -> Plan {
    Plan { variant, wait_seconds: clamped_wait(deadline - now, refresh_period) as u64 }
}

/// The decision for `now` from today's sunrise and sunset alone, or `None`
/// where the sun has set and tomorrow's sunrise is the deadline.
pub open spec fn today_plan(now: int, sunrise: int, sunset: int, refresh_period: int) -> Option<
    Plan,
> {
    match day_phase(now, sunrise, sunset) {
        DayPhase::BeforeSunrise => Some(plan_for(ThemeVariant::Dark, now, sunrise, refresh_period)),
        DayPhase::Daylight => Some(plan_for(ThemeVariant::Light, now, sunset, refresh_period)),
        DayPhase::AfterSunset => None,
    }
}

/// The decision for `now` after sunset: dark until tomorrow's sunrise.
pub open spec fn tomorrow_plan(now: int, tomorrow_sunrise: int, refresh_period: int) -> Plan {
    plan_for(ThemeVariant::Dark, now, tomorrow_sunrise, refresh_period)
}

/// Tells the phase of `now`.
pub fn phase_of(now: i64, sunrise: i64, sunset: i64) -> (phase: DayPhase)
    ensures
        phase == day_phase(now as int, sunrise as int, sunset as int),
        phase == DayPhase::Daylight <==> sunrise <= now < sunset,
{
    if now < sunrise {
        DayPhase::BeforeSunrise
    } else if now < sunset {
        DayPhase::Daylight
    } else {
        DayPhase::AfterSunset
    }
}

/// Brings a raw wait into the range from zero to `refresh_period`: a
/// negative wait becomes zero, a long one the refresh period.
pub fn clamp_wait(raw_wait: i64, refresh_period: u64) -> (wait: u64)
    ensures
        wait == clamped_wait(raw_wait as int, refresh_period as int),
        0 <= wait <= refresh_period,
{
    if raw_wait <= 0 {
        0
    } else {
        let raw: u64 = raw_wait as u64;
        if raw >= refresh_period {
            refresh_period
        } else {
            raw
        }
    }
}

/// The clamped number of seconds from `now` to `deadline`, whatever the
/// distance between the two.
pub fn wait_until(now: i64, deadline: i64, refresh_period: u64) -> (wait: u64)
    ensures
        wait == clamped_wait(deadline - now, refresh_period as int),
        0 <= wait <= refresh_period,
{
    if deadline <= now {
        0
    } else {
        let distance: i128 = deadline as i128 - now as i128;
        if distance >= refresh_period as i128 {
            refresh_period
        } else {
            distance as u64
        }
    }
}

/// Applies the configured inversion to the variant that the sun calls for.
pub fn resolve_variant(desired: ThemeVariant, invert: bool) -> (variant: ThemeVariant)
    ensures
        variant == effective_variant(desired, invert),
{
    if invert {
        desired.invert()
    } else {
        desired
    }
}

/// Decides from today's sunrise and sunset. Before sunrise the theme is dark
/// until sunrise; in daylight it is light until sunset. From sunset on the
/// deadline is tomorrow's sunrise, which this function does not know: it
/// returns `None`.
pub fn plan_today(now: i64, sunrise: i64, sunset: i64, refresh_period: u64) -> (plan: Option<Plan>)
    ensures
        plan == today_plan(now as int, sunrise as int, sunset as int, refresh_period as int),
        plan is None <==> now >= sunrise && now >= sunset,
        plan matches Some(p) ==> p.variant == desired_variant(
            now as int,
            sunrise as int,
            sunset as int,
        ) && p.wait_seconds <= refresh_period,
{
    match phase_of(now, sunrise, sunset) {
        DayPhase::BeforeSunrise => Some(
            Plan { variant: ThemeVariant::Dark, wait_seconds: wait_until(now, sunrise, refresh_period) },
        ),
        DayPhase::Daylight => Some(
            Plan { variant: ThemeVariant::Light, wait_seconds: wait_until(now, sunset, refresh_period) },
        ),
        DayPhase::AfterSunset => None,
    }
}

/// Decides after sunset: dark, and asleep until tomorrow's sunrise at most.
pub fn plan_tomorrow(now: i64, tomorrow_sunrise: i64, refresh_period: u64) -> (plan: Plan)
    ensures
        plan == tomorrow_plan(now as int, tomorrow_sunrise as int, refresh_period as int),
        plan.variant == ThemeVariant::Dark,
        plan.wait_seconds <= refresh_period,
{
    Plan { variant: ThemeVariant::Dark, wait_seconds: wait_until(now, tomorrow_sunrise, refresh_period) }
}

/// At every instant from a day's sunrise up to, but not including, its
/// sunset the variant is light; at every other instant, before sunrise or
/// from sunset on until the next sunrise, it is dark.
pub proof fn lemma_light_exactly_in_daylight(
    now: int,
    sunrise: int,
    sunset: int,
    tomorrow_sunrise: int,
    refresh_period: int,
)
    ensures
        match today_plan(now, sunrise, sunset, refresh_period) {
            Some(plan) => {
                &&& now < sunrise || now < sunset
                &&& plan.variant == desired_variant(now, sunrise, sunset)
                &&& plan.variant == ThemeVariant::Light <==> sunrise <= now < sunset
                &&& plan.variant == ThemeVariant::Dark <==> now < sunrise
            },
            None => {
                &&& now >= sunrise && now >= sunset
                &&& desired_variant(now, sunrise, sunset) == ThemeVariant::Dark
                &&& tomorrow_plan(now, tomorrow_sunrise, refresh_period).variant
                    == ThemeVariant::Dark
            },
        },
{
}

/// However far the deadline lies in the past or in the future, the clamped
/// wait is between zero and the refresh period. A wait within that range is
/// kept as it is.
pub proof fn lemma_clamped_wait_in_range(raw_wait: int, refresh_period: int)
    requires
        0 <= refresh_period,
    ensures
        0 <= clamped_wait(raw_wait, refresh_period) <= refresh_period,
        0 <= raw_wait <= refresh_period ==> clamped_wait(raw_wait, refresh_period) == raw_wait,
        raw_wait < 0 ==> clamped_wait(raw_wait, refresh_period) == 0,
        raw_wait > refresh_period ==> clamped_wait(raw_wait, refresh_period) == refresh_period,
{
}

} // verus!
