//! Numeric value types: revisions, epochs, timestamps and monotonic time.
use crate::error::DomainError;
use vstd::prelude::*;

verus! {

/// Revision number of a goal; revisions start at one and advance by one.
#[derive(Clone, Copy, Debug, PartialEq, Eq, Structural, Hash, PartialOrd, Ord)]
pub struct GoalRevision(u64);

impl View for GoalRevision {
    type V = u64;

    closed spec fn view(&self) -> u64 {
        self.0
    }
}

impl GoalRevision {
    pub fn initial() -> (r: Self)
        ensures
            r@ == 1,
    {
        GoalRevision(1)
    }

    pub fn value(self) -> (r: u64)
        ensures
            r == self@,
    {
        self.0
    }

    /// The revision that follows this one, unless the revision space is exhausted.
    pub fn next(self) -> (r: Result<Self, DomainError>)
        ensures
            match r {
                Ok(n) => self@ < u64::MAX && n@ == self@ + 1,
                Err(e) => self@ == u64::MAX && e == DomainError::RevisionExhausted,
            },
    {
        match self.0.checked_add(1) {
            Some(v) => Ok(GoalRevision(v)),
            None => Err(DomainError::RevisionExhausted),
        }
    }
}

/// Fencing epoch of a worker claim; epochs start at one.
#[derive(Clone, Copy, Debug, PartialEq, Eq, Structural, Hash, PartialOrd, Ord)]
pub struct ClaimEpoch(u64);

impl View for ClaimEpoch {
    type V = u64;

    closed spec fn view(&self) -> u64 {
        self.0
    }
}

impl ClaimEpoch {
    pub fn initial() -> (r: Self)
        ensures
            r@ == 1,
    {
        ClaimEpoch(1)
    }

    pub fn value(self) -> (r: u64)
        ensures
            r == self@,
    {
        self.0
    }

    /// Accepts a persisted epoch only when it is positive.
    pub fn try_from_raw(value: i64) -> (r: Result<Self, DomainError>)
        ensures
            match r {
                Ok(e) => value > 0 && e@ == value,
                Err(e) => value <= 0 && e == (DomainError::InvalidNumericValue {
                    kind: "claim epoch",
                }),
            },
    {
        if value > 0 {
            Ok(ClaimEpoch(value as u64))
        } else {
            Err(DomainError::InvalidNumericValue { kind: "claim epoch" })
        }
    }

    /// The epoch that follows this one, unless the epoch space is exhausted.
    pub(crate) fn next(self) -> (r: Result<Self, DomainError>)
        ensures
            match r {
                Ok(n) => self@ < u64::MAX && n@ == self@ + 1,
                Err(e) => self@ == u64::MAX && e == DomainError::EpochExhausted,
            },
    {
        match self.0.checked_add(1) {
            Some(v) => Ok(ClaimEpoch(v)),
            None => Err(DomainError::EpochExhausted),
        }
    }
}

/// Wall-clock time in Unix seconds.
#[derive(Clone, Copy, Debug, PartialEq, Eq, Structural, Hash, PartialOrd, Ord)]
pub struct Timestamp(i64);

impl View for Timestamp {
    type V = i64;

    closed spec fn view(&self) -> i64 {
        self.0
    }
}

impl Timestamp {
    pub fn from_unix_seconds(value: i64) -> (r: Self)
        ensures
            r@ == value,
    {
        Timestamp(value)
    }

    pub fn as_unix_seconds(self) -> (r: i64)
        ensures
            r == self@,
    {
        self.0
    }
}

/// A point on Resolve's monotonic clock, in ticks.
#[derive(Clone, Copy, Debug, PartialEq, Eq, Structural, Hash, PartialOrd, Ord)]
pub struct MonotonicInstant(u64);

impl View for MonotonicInstant {
    type V = u64;

    closed spec fn view(&self) -> u64 {
        self.0
    }
}

impl MonotonicInstant {
    pub fn from_ticks(value: u64) -> (r: Self)
        ensures
            r@ == value,
    {
        MonotonicInstant(value)
    }

    pub fn ticks(self) -> (r: u64)
        ensures
            r == self@,
    {
        self.0
    }

    /// Accepts a persisted instant only when it is not negative.
    pub fn try_from_raw(value: i64) -> (r: Result<Self, DomainError>)
        ensures
            match r {
                Ok(t) => value >= 0 && t@ == value,
                Err(e) => value < 0 && e == (DomainError::InvalidNumericValue {
                    kind: "monotonic instant",
                }),
            },
    {
        if value >= 0 {
            Ok(MonotonicInstant(value as u64))
        } else {
            Err(DomainError::InvalidNumericValue { kind: "monotonic instant" })
        }
    }
}

/// Generation of the store's process lifetime; restarts advance it.
#[derive(Clone, Copy, Debug, PartialEq, Eq, Structural, Hash, PartialOrd, Ord)]
pub struct BootGeneration(u64);

impl View for BootGeneration {
    type V = u64;

    closed spec fn view(&self) -> u64 {
        self.0
    }
}

impl BootGeneration {
    pub fn from_raw(value: u64) -> (r: Self)
        ensures
            r@ == value,
    {
        BootGeneration(value)
    }

    pub fn value(self) -> (r: u64)
        ensures
            r == self@,
    {
        self.0
    }

    /// Accepts a persisted generation only when it is not negative.
    pub fn try_from_raw(value: i64) -> (r: Result<Self, DomainError>)
        ensures
            match r {
                Ok(g) => value >= 0 && g@ == value,
                Err(e) => value < 0 && e == (DomainError::InvalidNumericValue {
                    kind: "boot generation",
                }),
            },
    {
        if value >= 0 {
            Ok(BootGeneration(value as u64))
        } else {
            Err(DomainError::InvalidNumericValue { kind: "boot generation" })
        }
    }
}

/// A positive duration in monotonic ticks.
#[derive(Clone, Copy, Debug, PartialEq, Eq, Structural, Hash, PartialOrd, Ord)]
pub struct MonotonicDuration(u64);

impl View for MonotonicDuration {
    type V = u64;

    closed spec fn view(&self) -> u64 {
        self.0
    }
}

impl MonotonicDuration {
    /// Accepts any positive number of ticks.
    pub fn try_from_ticks(value: u64) -> (r: Result<Self, DomainError>)
        ensures
            match r {
                Ok(d) => value > 0 && d@ == value,
                Err(e) => value == 0 && e == DomainError::InvalidDuration,
            },
    {
        if value == 0 {
            return Err(DomainError::InvalidDuration);
        }
        Ok(MonotonicDuration(value))
    }

    pub fn ticks(self) -> (r: u64)
        ensures
            r == self@,
    {
        self.0
    }

    /// `now` advanced by this duration; overflow of the tick space fails closed.
    pub fn deadline_from(self, now: MonotonicInstant) -> (r: Result<MonotonicInstant, DomainError>)
        ensures
            match r {
                Ok(t) => now@ + self@ <= u64::MAX && t@ == now@ + self@,
                Err(e) => now@ + self@ > u64::MAX && e == DomainError::TimeOverflow,
            },
    {
        match now.ticks().checked_add(self.0) {
            Some(v) => Ok(MonotonicInstant::from_ticks(v)),
            None => Err(DomainError::TimeOverflow),
        }
    }
}

} // verus!
