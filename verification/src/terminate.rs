//! How a request to terminate a child process is judged.
//!
//! On a POSIX system the request is a signal to the child's whole process
//! group, so that its descendants get it too. The request may fail because the
//! child has just exited by itself: that race is no error.

use vstd::prelude::*;
use vstd::string::StringExecFns;

verus! {

/// The kind of system the child runs on, as far as termination differs.
#[derive(Copy, Clone, Debug, PartialEq, Eq, Structural)]
pub enum Platform {
    /// A POSIX system other than macOS: termination is a signal to the group.
    Posix,
    /// macOS: as `Posix`, and a refused permission is read as "already gone".
    MacOs,
    /// A system without process groups: termination kills the one process.
    Native,
}

/// The error number for "no such process".
pub const ESRCH: i32 = 3;

/// The error number for "operation not permitted".
pub const EPERM: i32 = 1;

/// A termination request that failed for a reason other than the child being
/// gone already. It carries the error number that the system gave.
#[derive(Copy, Clone, Debug, PartialEq, Eq, Structural)]
pub struct TerminationError {
    pub errno: i32,
}

/// Whether a failed termination request still counts as done, because the
/// error says no more than that the child had exited before the request.
pub open spec fn is_benign_race(platform: Platform, errno: i32) -> bool {
    match platform {
        Platform::Posix => errno == ESRCH,
        Platform::MacOs => errno == ESRCH || errno == EPERM,
        Platform::Native => false,
    }
}

/// The verdict on a termination request, given the error number with which it
/// failed, or `None` where the system accepted it.
pub open spec fn termination_verdict(platform: Platform, failure: Option<i32>) -> Result<
    (),
    TerminationError,
> {
    match failure {
        None => Ok(()),
        Some(errno) => if is_benign_race(platform, errno) {
            Ok(())
        } else {
            Err(TerminationError { errno })
        },
    }
}

/// `Errno::from_raw` of nix, and the `Display` of the `Errno` that it gives:
/// the text by which this system describes an error number. The text differs
/// from system to system, so nothing is claimed of it.
#[verifier::external_body]
fn describe_errno(errno: i32) -> (r: String) {
    format!("{}", nix::errno::Errno::from_raw(errno))
}

/// The message of a failed termination request, given the system's
/// description of the error.
pub fn termination_message(description: &str) -> (r: String)
    ensures
        r@ == "failed to terminate child: "@ + description@,
{
    let mut message = "failed to terminate child: ".to_owned();
    message.append(description);
    message
}

impl TerminationError {
    /// The message of this error: a fixed opening, then the description that
    /// the system gives of the error number.
    pub fn message(&self) -> (r: String)
        ensures
            exists|description: Seq<char>|
                r@ == "failed to terminate child: "@ + description,
    {
        let description = describe_errno(self.errno);
        termination_message(description.as_str())
    }
}

/// Whether the platform signals a whole process group, so that a child has
/// to be started as the leader of a group of its own.
pub fn uses_process_groups(platform: Platform) -> (r: bool)
    ensures
        r == !(platform is Native),
{
    match platform {
        Platform::Native => false,
        _ => true,
    }
}

/// The id of the process group that a child with the given process id leads.
/// A process id that no signed 32-bit number holds has none.
pub fn process_group_of(pid: u32) -> (r: Option<i32>)
    ensures
        pid <= i32::MAX ==> r == Some(pid as i32) && r->0 as int == pid as int,
        pid > i32::MAX ==> r is None,
{
    if pid <= 0x7fff_ffff {
        Some(pid as i32)
    } else {
        None
    }
}

/// Judges a termination request by what the system answered: accepted, or
/// failed with an error number. It is an error unless the request was
/// accepted or the failure is the race with a child that was gone already.
pub fn judge_termination(platform: Platform, failure: Option<i32>) -> (r: Result<
    (),
    TerminationError,
>)
    ensures
        r == termination_verdict(platform, failure),
{
    match failure {
        None => Ok(()),
        Some(errno) => {
            let benign = match platform {
                Platform::Posix => errno == ESRCH,
                Platform::MacOs => errno == ESRCH || errno == EPERM,
                Platform::Native => false,
            };
            if benign {
                Ok(())
            } else {
                Err(TerminationError { errno })
            }
        },
    }
}

/// Terminating a child that has already exited is told apart from
/// terminating one that still runs on no platform that has the race: a
/// request that finds no such process is judged as one that was accepted.
pub proof fn lemma_gone_child_is_no_error(platform: Platform)
    requires
        !(platform is Native),
    ensures
        termination_verdict(platform, Some(ESRCH)) == termination_verdict(platform, None),
        termination_verdict(platform, None) is Ok,
{
}

/// A refused permission is forgiven on macOS and nowhere else.
pub proof fn lemma_permission_only_on_macos(platform: Platform)
    ensures
        termination_verdict(platform, Some(EPERM)) is Ok <==> platform is MacOs,
{
}

} // verus!
