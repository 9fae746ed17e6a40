//! The final outcome of one run of a child process.

use vstd::prelude::*;

verus! {

/// The result of running a single child process.
#[derive(Copy, Clone, Debug, PartialEq, Eq, Structural)]
pub enum ProcessStatus {
    /// Exited with status 0.
    Success,
    /// Exited with a status other than 0.
    Failure(u32),
    /// Exceeded its timeout, and was terminated.
    Timeout,
    /// Killed by some signal.
    Signalled(u8),
    /// Ended with neither an exit code nor a signal number.
    Other,
}

/// What the operating system reports of a process that has exited: its exit
/// code if it has one, and the number of the signal that ended it if one did.
#[derive(Copy, Clone, Debug, PartialEq, Eq, Structural)]
pub struct ExitReport {
    pub code: Option<i32>,
    pub signal: Option<i32>,
}

/// The status that an exit report stands for. An exit code decides first, then
/// a signal number; only a report with neither is `Other`. A negative code is
/// kept by its bit pattern, and a signal number by its low eight bits.
pub open spec fn status_of_exit(report: ExitReport) -> ProcessStatus {
    match report.code {
        Some(code) => if code == 0 {
            ProcessStatus::Success
        } else {
            ProcessStatus::Failure(code as u32)
        },
        None => match report.signal {
            Some(signal) => ProcessStatus::Signalled(signal as u8),
            None => ProcessStatus::Other,
        },
    }
}

impl ProcessStatus {
    pub fn is_success(&self) -> (r: bool)
        ensures
            r == (*self == ProcessStatus::Success),
    {
        *self == ProcessStatus::Success
    }

    pub fn is_timeout(&self) -> (r: bool)
        ensures
            r == (*self == ProcessStatus::Timeout),
    {
        *self == ProcessStatus::Timeout
    }

    pub fn is_failure(&self) -> (r: bool)
        ensures
            r == (*self is Failure),
    {
        match self {
            ProcessStatus::Failure(_) => true,
            _ => false,
        }
    }

    /// The status of a process that has exited with the given report.
    pub fn from_exit(report: ExitReport) -> (r: ProcessStatus)
        ensures
            r == status_of_exit(report),
    {
        match report.code {
            Some(code) => {
                if code == 0 {
                    ProcessStatus::Success
                } else {
                    ProcessStatus::Failure(#[verifier::truncate] (code as u32))
                }
            },
            None => match report.signal {
                Some(signal) => ProcessStatus::Signalled(#[verifier::truncate] (signal as u8)),
                None => ProcessStatus::Other,
            },
        }
    }
}

/// A process that exits with a code between 0 and 255 is a `Success` exactly
/// when the code is 0, and otherwise a `Failure` that carries that code.
pub proof fn lemma_exit_code_decides(code: i32, signal: Option<i32>)
    requires
        0 <= code <= 255,
    ensures
        (status_of_exit(ExitReport { code: Some(code), signal }) == ProcessStatus::Success) <==> code
            == 0,
        code != 0 ==> status_of_exit(ExitReport { code: Some(code), signal })
            == ProcessStatus::Failure(code as u32),
        code as u32 as int == code as int,
{
}

/// A process that a signal ended, and that so has no exit code, is
/// `Signalled` with that signal's number; `Other` comes only of a report that
/// holds neither a code nor a signal.
pub proof fn lemma_signal_is_kept(report: ExitReport)
    ensures
        (report.code is None && report.signal is Some && 0 <= report.signal->0 <= 255)
            ==> status_of_exit(report) == ProcessStatus::Signalled(report.signal->0 as u8)
            && (report.signal->0 as u8) as int == report.signal->0 as int,
        status_of_exit(report) == ProcessStatus::Other <==> (report.code is None
            && report.signal is None),
        !(status_of_exit(report) is Timeout),
{
}

} // verus!
