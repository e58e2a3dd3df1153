//! Health of a dependency, judged from the outcome of one check.

use vstd::prelude::*;

verus! {

/// The health of a dependency.
#[derive(Debug, PartialEq)]
pub enum HealthStatus {
    Healthy,
    Degraded,
    Offline { error: String },
}

/// The health of a dependency and how long it took to find out.
#[derive(Debug)]
pub struct HealthStatusReport {
    pub status: HealthStatus,
    pub duration: core::time::Duration,
}

/// The nanoseconds in a millisecond.
pub const NANOS_PER_MILLI: u128 = 1_000_000;

impl HealthStatus {
    /// The status that the outcome of a check stands for. A check that failed
    /// or ran out of time is reported offline, with its message. A check that
    /// succeeded is healthy if it took no longer than `degrade_ms`
    /// milliseconds, and degraded if it took longer.
    pub open spec fn judged(
        outcome: Result<(), String>,
        elapsed_nanos: u128,
        degrade_ms: u64,
        status: HealthStatus,
    ) -> bool {
        match outcome {
            Ok(_) => if elapsed_nanos > degrade_ms * NANOS_PER_MILLI {
                status == HealthStatus::Degraded
            } else {
                status == HealthStatus::Healthy
            },
            Err(message) => status matches HealthStatus::Offline { error } && error@ == message@,
        }
    }

    /// Judges the outcome of a check that took `elapsed_nanos` nanoseconds.
    pub fn judge(outcome: Result<(), String>, elapsed_nanos: u128, degrade_ms: u64) -> (status:
        HealthStatus)
        ensures
            Self::judged(outcome, elapsed_nanos, degrade_ms, status),
    {
        match outcome {
            Ok(_) => {
                let limit: u128 = (degrade_ms as u128) * NANOS_PER_MILLI;
                if elapsed_nanos > limit {
                    HealthStatus::Degraded
                } else {
                    HealthStatus::Healthy
                }
            },
            Err(message) => HealthStatus::Offline { error: message },
        }
    }

    /// The name of the status in lower case.
    pub open spec fn label(&self) -> Seq<char> {
        match self {
            HealthStatus::Healthy => "healthy"@,
            HealthStatus::Degraded => "degraded"@,
            HealthStatus::Offline { .. } => "offline"@,
        }
    }

    /// The name of the status in lower case. The message of an offline status
    /// is not part of it.
    pub fn to_string(&self) -> (text: String)
        ensures
            text@ == self.label(),
    {
        match self {
            HealthStatus::Healthy => "healthy".to_owned(),
            HealthStatus::Degraded => "degraded".to_owned(),
            HealthStatus::Offline { .. } => "offline".to_owned(),
        }
    }
}

impl HealthStatusReport {
    /// The report on a check: `outcome` is what the check returned, with the
    /// message of its failure or of the timeout that cut it short;
    /// `elapsed_nanos` is how long the check took to succeed, and `duration`
    /// how long the whole evaluation took.
    pub fn from_outcome(
        outcome: Result<(), String>,
        elapsed_nanos: u128,
        degrade_ms: u64,
        duration: core::time::Duration,
    ) -> (report: HealthStatusReport)
        ensures
            HealthStatus::judged(outcome, elapsed_nanos, degrade_ms, report.status),
            report.duration == duration,
    {
        HealthStatusReport {
            status: HealthStatus::judge(outcome, elapsed_nanos, degrade_ms),
            duration,
        }
    }
}

} // verus!
