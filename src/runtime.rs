use vstd::prelude::*;

verus! {

/// Identifier of a timer, interval or fetch, allocated by the script side.
pub type CallbackId = u64;

/// A request sent from the script side to the task scheduler.
#[derive(Debug, Clone, PartialEq, Eq)]
pub enum SchedulerMessage {
    /// Fire once after the given delay in milliseconds.
    ScheduleTimeout(CallbackId, u64),
    /// Fire repeatedly with the given period in milliseconds.
    ScheduleInterval(CallbackId, u64),
    /// Cancel a timer or an interval.
    ClearTimer(CallbackId),
    /// Fetch the body of a URL.
    Fetch(CallbackId, String),
    /// Abort every held task and stop taking requests.
    Shutdown,
}

/// A completion sent from the task scheduler back to the script side.
#[derive(Debug, Clone, PartialEq, Eq)]
pub enum CallbackMessage {
    ExecuteTimeout(CallbackId),
    ExecuteInterval(CallbackId),
    FetchSuccess(CallbackId, String),
    FetchError(CallbackId, String),
}

} // verus!
