//! Deadlines computed from durations.

use vstd::prelude::*;

verus! {

/// The moment at which a key expires, in milliseconds since the Unix epoch.
#[derive(Debug, PartialEq, Eq, Clone, Copy)]
pub struct Expiry {
    timestamp: u64,
}

/// A deadline that does not fit in 64 bits of milliseconds.
#[derive(Debug, PartialEq, Eq, Clone, Copy)]
pub struct TimeOverflow {}

/// The deadline `duration` milliseconds after the moment `now`, where it can
/// be represented.
pub open spec fn deadline_after_millis(now: u64, duration: u64) -> Option<nat> {
    if now + duration <= u64::MAX {
        Some((now + duration) as nat)
    } else {
        None
    }
}

/// The deadline `duration` seconds after the moment `now`, where it can be
/// represented.
pub open spec fn deadline_after_secs(now: u64, duration: u64) -> Option<nat> {
    if now + 1000 * duration <= u64::MAX {
        Some((now + 1000 * duration) as nat)
    } else {
        None
    }
}

/// Whether `built` is the expiry with the deadline `wanted`, or the refusal
/// that stands for there being none.
pub open spec fn builds(built: Result<Expiry, TimeOverflow>, wanted: Option<nat>) -> bool {
    match built {
        Ok(expiry) => wanted == Some(expiry@),
        Err(_) => wanted is None,
    }
}

impl View for Expiry {
    type V = nat;

    closed spec fn view(&self) -> nat {
        self.timestamp as nat
    }
}

/// Reads the system clock through `std::time::SystemTime::now` and gives the
/// time as milliseconds since the Unix epoch (zero for a clock set before it).
/// Nothing is claimed of the number: any `u64` may come back, and two calls
/// may differ.
#[verifier::external_body]
pub(crate) fn unix_millis() -> u64 {
    let since_epoch = std::time::SystemTime::now().duration_since(
        std::time::UNIX_EPOCH,
    ).unwrap_or_default();
    since_epoch.as_millis() as u64
}

impl Expiry {
    /// The deadline, in milliseconds since the Unix epoch.
    pub fn timestamp(&self) -> (millis: u64)
        ensures
            millis == self@,
    {
        self.timestamp
    }

    /// The expiry `duration` milliseconds after `now`.
    pub fn from_millis_at(now: u64, duration: u64) -> (built: Result<Expiry, TimeOverflow>)
        ensures
            builds(built, deadline_after_millis(now, duration)),
    {
        match now.checked_add(duration) {
            Some(timestamp) => Ok(Expiry { timestamp }),
            None => Err(TimeOverflow {  }),
        }
    }

    /// The expiry `duration` seconds after `now`.
    pub fn from_secs_at(now: u64, duration: u64) -> (built: Result<Expiry, TimeOverflow>)
        ensures
            builds(built, deadline_after_secs(now, duration)),
    {
        match duration.checked_mul(1000) {
            Some(millis) => Self::from_millis_at(now, millis),
            None => Err(TimeOverflow {  }),
        }
    }

    /// The expiry `duration` milliseconds after the present moment, whatever
    /// the clock says that moment is.
    pub fn new_from_millis(duration: u64) -> (built: Result<Expiry, TimeOverflow>)
        ensures
            exists|now: u64| builds(built, #[trigger] deadline_after_millis(now, duration)),
    {
        let now: u64 = unix_millis();
        Self::from_millis_at(now, duration)
    }

    /// The expiry `duration` seconds after the present moment, whatever the
    /// clock says that moment is.
    pub fn new_from_secs(duration: u64) -> (built: Result<Expiry, TimeOverflow>)
        ensures
            exists|now: u64| builds(built, #[trigger] deadline_after_secs(now, duration)),
    {
        let now: u64 = unix_millis();
        Self::from_secs_at(now, duration)
    }
}

} // verus!
