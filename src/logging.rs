//! The lines written to the process log when a job starts and ends.

use vstd::prelude::*;
use crate::text::{decimal_digits, decimal_text};

verus! {

/// How loud a log line is.
#[derive(PartialEq, Eq, Structural, Clone, Copy, Debug)]
pub enum LogLevel {
    Info,
    Error,
}

pub open spec fn job_line(job_id: u64, suffix: Seq<char>) -> Seq<char> {
    "Job "@ + decimal_digits(job_id as nat) + suffix
}

/// The line that announces a job's start.
pub fn log_job_start(job_id: u64) -> (r: (LogLevel, String))
    ensures
        r.0 == LogLevel::Info,
        r.1@ == job_line(job_id, " started"@),
{
    let mut s = String::from_str("Job ");
    let id = decimal_text(job_id);
    s.append(id.as_str());
    s.append(" started");
    (LogLevel::Info, s)
}

/// The line that announces a job's end: an error when it failed.
pub fn log_job_end(job_id: u64, success: bool) -> (r: (LogLevel, String))
    ensures
        r.0 == (if success { LogLevel::Info } else { LogLevel::Error }),
        r.1@ == job_line(job_id, if success { " succeeded"@ } else { " failed"@ }),
{
    let mut s = String::from_str("Job ");
    let id = decimal_text(job_id);
    s.append(id.as_str());
    if success {
        s.append(" succeeded");
        (LogLevel::Info, s)
    } else {
        s.append(" failed");
        (LogLevel::Error, s)
    }
}

} // verus!
