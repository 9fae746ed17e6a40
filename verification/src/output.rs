//! What a short command that ran to its end has to say: the text it wrote to
//! its standard output, if it succeeded and the text is well formed.

use vstd::prelude::*;
use vstd::utf8::{decode_utf8, valid_utf8};

verus! {

/// A command that has run to completion: whether it exited with success, and
/// the bytes it wrote to standard output.
#[derive(Clone, Debug, PartialEq, Eq)]
pub struct CommandReport {
    pub success: bool,
    pub stdout: Vec<u8>,
}

/// Why a finished command has no output to give.
#[derive(Copy, Clone, Debug, PartialEq, Eq, Structural)]
pub enum OutputError {
    /// The command exited with a status other than success.
    NonZeroExit,
    /// The captured output is not valid UTF-8.
    NotUtf8,
}

/// `String::from_utf8` of std, with its error dropped: the bytes decoded as
/// UTF-8 where they are valid UTF-8, and `None` where they are not.
#[verifier::external_body]
fn decode_text(bytes: Vec<u8>) -> (r: Option<String>)
    ensures
        valid_utf8(bytes@) ==> r is Some && r->0@ == decode_utf8(bytes@),
        !valid_utf8(bytes@) ==> r is None,
{
    match String::from_utf8(bytes) {
        Ok(text) => Some(text),
        Err(_) => None,
    }
}

/// The standard output of a finished command as a string. A command that
/// failed has none, whatever it wrote; one that succeeded has the text that
/// its bytes decode to, or an error where they are not text.
pub fn get_command_output(report: CommandReport) -> (r: Result<String, OutputError>)
    ensures
        !report.success ==> r == Err::<String, OutputError>(OutputError::NonZeroExit),
        report.success && !valid_utf8(report.stdout@) ==> r == Err::<String, OutputError>(
            OutputError::NotUtf8,
        ),
        report.success && valid_utf8(report.stdout@) ==> r is Ok && r->Ok_0@ == decode_utf8(
            report.stdout@,
        ),
{
    if !report.success {
        return Err(OutputError::NonZeroExit);
    }
    match decode_text(report.stdout) {
        Some(text) => Ok(text),
        None => Err(OutputError::NotUtf8),
    }
}

} // verus!
