//! The result-handling policy: what a connection actor does after each
//! attempt at an operation.

use vstd::prelude::*;

verus! {

/// The fixed pause, in seconds, before an unattended operation is retried.
pub const RETRY_BACKOFF_SECS: u64 = 1;

/// What is sent to the requester's mailbox after an attempt.
#[derive(Debug, Clone, Copy, PartialEq, Eq, Structural)]
pub enum Delivery {
    /// The operation's result.
    Result,
    /// The error that the attempt ended with.
    Error,
    /// Nothing: the operation will be retried.
    Withheld,
}

/// What is logged after an attempt.
#[derive(Debug, Clone, Copy, PartialEq, Eq, Structural)]
pub enum LogNote {
    Quiet,
    /// An information notice: the operation succeeded after failures.
    Recovered,
    /// An error notice: the operation failed again and will be retried.
    WillRetry,
}

/// The decision taken after one attempt at an operation.
#[derive(Debug, Clone, Copy, PartialEq, Eq, Structural)]
pub struct Step {
    pub delivery: Delivery,
    pub log: LogNote,
    /// The operation reached its terminal outcome: the in-flight count drops.
    pub completed: bool,
    /// The same operation runs again after the backoff.
    pub retry: bool,
    /// The failures of this operation so far.
    pub failed_times: u64,
}

/// The policy. A success is delivered, with a recovery notice after earlier
/// failures, and completes the operation. A failure of an attended operation
/// (`session != 0`) is delivered at once and completes it: it is never
/// retried. A failure of an unattended operation (`session == 0`) is not
/// delivered, does not complete it, is logged from the second failure on,
/// and is retried after the backoff.
pub open spec fn step_of(failed_times: u64, session: i64, succeeded: bool) -> Step {
    if succeeded {
        Step {
            delivery: Delivery::Result,
            log: if failed_times > 0 { LogNote::Recovered } else { LogNote::Quiet },
            completed: true,
            retry: false,
            failed_times,
        }
    } else if session != 0 {
        Step { delivery: Delivery::Error, log: LogNote::Quiet, completed: true, retry: false, failed_times }
    } else {
        Step {
            delivery: Delivery::Withheld,
            log: if failed_times > 0 { LogNote::WillRetry } else { LogNote::Quiet },
            completed: false,
            retry: true,
            failed_times: if failed_times < u64::MAX { (failed_times + 1) as u64 } else { failed_times },
        }
    }
}

/// Decides what follows an attempt of an operation of `session` that had
/// failed `failed_times` times before and now `succeeded` or not.
pub fn handle_result(failed_times: u64, session: i64, succeeded: bool) -> (r: Step)
    ensures
        r == step_of(failed_times, session, succeeded),
{
    if succeeded {
        Step {
            delivery: Delivery::Result,
            log: if failed_times > 0 { LogNote::Recovered } else { LogNote::Quiet },
            completed: true,
            retry: false,
            failed_times,
        }
    } else if session != 0 {
        Step { delivery: Delivery::Error, log: LogNote::Quiet, completed: true, retry: false, failed_times }
    } else {
        Step {
            delivery: Delivery::Withheld,
            log: if failed_times > 0 { LogNote::WillRetry } else { LogNote::Quiet },
            completed: false,
            retry: true,
            failed_times: if failed_times < u64::MAX { failed_times + 1 } else { failed_times },
        }
    }
}

} // verus!
