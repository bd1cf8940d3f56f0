//! The frequency model: a user-chosen cadence and its deterministic
//! conversion to the automation service's interval descriptor.

use vstd::prelude::*;

verus! {

/// Seconds in an hour.
pub const HOUR_SECONDS: u64 = 3600;

/// Seconds in a day.
pub const DAY_SECONDS: u64 = 86400;

/// Seconds in a week.
pub const WEEK_SECONDS: u64 = 604800;

/// A user-chosen cadence for a plan: a named period or a fixed interval in
/// seconds.  The set is closed; there is no partial or fuzzy matching.
#[derive(Clone, Copy, Debug, PartialEq, Eq, Structural)]
pub enum Frequency {
    /// Once an hour.
    Hourly,
    /// Once a day.
    Daily,
    /// Once a week.
    Weekly,
    /// Once every fixed number of seconds.
    EverySeconds(u64),
}

/// The automation service's interval descriptor: a recurrence period in
/// seconds.
#[derive(Clone, Copy, Debug, PartialEq, Eq, Structural)]
pub struct Interval {
    /// The recurrence period.
    pub seconds: u64,
}

impl Frequency {
    /// A cadence is supported exactly when its period is positive.  An
    /// unsupported cadence is rejected when the value is constructed, never
    /// by a runtime fallback.
    pub open spec fn valid(self) -> bool {
        match self {
            Frequency::EverySeconds(n) => n > 0,
            _ => true,
        }
    }

    /// The interval a cadence converts to.
    pub open spec fn interval(self) -> Interval {
        match self {
            Frequency::Hourly => Interval { seconds: HOUR_SECONDS },
            Frequency::Daily => Interval { seconds: DAY_SECONDS },
            Frequency::Weekly => Interval { seconds: WEEK_SECONDS },
            Frequency::EverySeconds(n) => Interval { seconds: n },
        }
    }

    /// Deterministic conversion to the automation service's interval
    /// descriptor.
    pub fn to_interval(self) -> (r: Interval)
        ensures
            r == self.interval(),
    {
        match self {
            Frequency::Hourly => Interval { seconds: HOUR_SECONDS },
            Frequency::Daily => Interval { seconds: DAY_SECONDS },
            Frequency::Weekly => Interval { seconds: WEEK_SECONDS },
            Frequency::EverySeconds(n) => Interval { seconds: n },
        }
    }

    /// Construct a custom cadence.  A zero period is not a cadence and is
    /// rejected here, at construction time.
    pub fn custom(seconds: u64) -> (r: Option<Frequency>)
        ensures
            seconds > 0 ==> r == Some(Frequency::EverySeconds(seconds)),
            seconds == 0 ==> r is None,
            r matches Some(f) ==> f.valid(),
    {
        if seconds > 0 {
            Some(Frequency::EverySeconds(seconds))
        } else {
            None
        }
    }
}

} // verus!
