//! Showing the logs of a service.

use crate::error::Error;
use crate::utils::string::{decimal, decimal_string};
use vstd::prelude::*;

verus! {

/// How many lines are shown when the operator names no number.
pub const DEFAULT_LOGS_COUNT: u64 = 20;

/// What is asked of the engine's log stream.
#[derive(Debug)]
pub struct LogsRequest {
    pub stdout: bool,
    pub stderr: bool,
    /// Whether the stream stays open for what is logged from now on.
    pub follow: bool,
    /// How many of the last lines are shown, as a decimal numeral.
    pub tail: String,
    /// The same number, for the line that announces the logs.
    pub count: u64,
}

/// How many lines are shown: as many as asked for, else the default.
pub open spec fn logs_count(count: Option<u64>) -> u64 {
    match count {
        Some(n) => n,
        None => DEFAULT_LOGS_COUNT,
    }
}

/// The request for the logs of a container. Logs are shown of a running
/// container only. Without a number the last lines are shown and the
/// stream is followed; with a number just that many lines are shown.
pub fn logs(container_running: bool, count: Option<u64>) -> (request: Result<LogsRequest, Error>)
    ensures
        request is Ok <==> container_running,
        request matches Err(error) ==> error == Error::LogsUnavailable,
        request matches Ok(logs) ==> {
            &&& logs.stdout
            &&& logs.stderr
            &&& logs.follow == (count is None)
            &&& logs.count == logs_count(count)
            &&& logs.tail@ == decimal(logs_count(count) as nat)
        },
{
    if !container_running {
        return Err(Error::LogsUnavailable);
    }
    let logs_count: u64 = match count {
        Some(n) => n,
        None => DEFAULT_LOGS_COUNT,
    };
    Ok(
        LogsRequest {
            stdout: true,
            stderr: true,
            follow: count.is_none(),
            tail: decimal_string(logs_count),
            count: logs_count,
        },
    )
}

} // verus!
