use vstd::prelude::*;

verus! {

/// How long ago an article came out, in the largest unit that fits.
#[derive(Debug, Clone, Copy, PartialEq, Eq, Structural)]
pub enum Age {
    Seconds(i64),
    Minutes(i64),
    Hours(i64),
    Days(i64),
    Weeks(i64),
    Months(i64),
    Years(i64),
}

/// The age of an article from the seconds elapsed since it came out: under
/// a minute in seconds (negative for a date still to come), then minutes,
/// hours and days; weeks of 7 days below 30 days, months of 30 days below
/// 365 days, and years of 365 days after that. Units are whole, rounded
/// down.
pub open spec fn age_spec(s: i64) -> Age {
    let days = s / 86400;
    if s < 60 {
        Age::Seconds(s)
    } else if s / 60 < 60 {
        Age::Minutes((s / 60) as i64)
    } else if s / 3600 < 24 {
        Age::Hours((s / 3600) as i64)
    } else if days < 7 {
        Age::Days(days as i64)
    } else if days < 30 {
        Age::Weeks((days / 7) as i64)
    } else if days < 365 {
        Age::Months((days / 30) as i64)
    } else {
        Age::Years((days / 365) as i64)
    }
}

/// The age of an article from the seconds elapsed since it came out.
pub fn age_of(elapsed_seconds: i64) -> (r: Age)
    ensures
        r == age_spec(elapsed_seconds),
{
    if elapsed_seconds < 60 {
        return Age::Seconds(elapsed_seconds);
    }
    let s = elapsed_seconds;
    let days = s / 86400;
    if s / 60 < 60 {
        Age::Minutes(s / 60)
    } else if s / 3600 < 24 {
        Age::Hours(s / 3600)
    } else if days < 7 {
        Age::Days(days)
    } else if days < 30 {
        Age::Weeks(days / 7)
    } else if days < 365 {
        Age::Months(days / 30)
    } else {
        Age::Years(days / 365)
    }
}

} // verus!
