//! The lines that the launcher writes when a step fails.
//!
//! Every line names the step, says what the system says of the error, and
//! ends with the error code in decimal.

use crate::lifecycle::{Failure, Operation};
use vstd::prelude::*;
use vstd::string::StringExecFns;

verus! {

/// How the line for a failure of `operation` begins.
pub open spec fn spec_prefix(operation: Operation) -> Seq<char> {
    match operation {
        Operation::Launch => "failed to spawn subprocess, error: "@,
        Operation::Attach => "failed to AssignProcessToJobObject, error: "@,
        Operation::QueryPeak => "failed to QueryInformationJobObject, error: "@,
        Operation::QueryTimes => "failed to get process times: "@,
        Operation::QueryExitCode => "failed to GetExitCodeProcess, error: "@,
    }
}

/// The digit that stands for `d`, where `d` is less than ten.
pub open spec fn spec_digit(d: nat) -> Seq<char> {
    if d == 0 {
        "0"@
    } else if d == 1 {
        "1"@
    } else if d == 2 {
        "2"@
    } else if d == 3 {
        "3"@
    } else if d == 4 {
        "4"@
    } else if d == 5 {
        "5"@
    } else if d == 6 {
        "6"@
    } else if d == 7 {
        "7"@
    } else if d == 8 {
        "8"@
    } else {
        "9"@
    }
}

/// The decimal digits of `n`, the highest first and none of them a leading
/// zero, but for zero itself.
pub open spec fn decimal(n: nat) -> Seq<char>
    decreases n,
{
    if n < 10 {
        spec_digit(n)
    } else {
        decimal(n / 10) + spec_digit(n % 10)
    }
}

/// An error code in decimal, with a minus sign in front where it is negative.
pub open spec fn spec_code_text(code: int) -> Seq<char> {
    if code < 0 {
        "-"@ + decimal((-code) as nat)
    } else {
        decimal(code as nat)
    }
}

/// The whole line for `failure`, where `text` is what the system says of the
/// error: how the line begins, the text, and the error code in brackets.
pub open spec fn spec_message(failure: Failure, text: Seq<char>) -> Seq<char> {
    spec_prefix(failure.operation) + text + " (os error "@ + spec_code_text(failure.code as int)
        + ")"@
}

/// The hint that follows a failed launch of `command`: the command may be one
/// that only the shell knows.
pub open spec fn spec_shell_hint(command: Seq<char>) -> Seq<char> {
    "you may need to use \"cmd /c "@ + command + "\""@
}

/// All that is written for `failure`: its line and, where the failure is
/// fatal, the hint on the line after it. Each line ends with a line feed.
pub open spec fn spec_lines(failure: Failure, text: Seq<char>, command: Seq<char>) -> Seq<char> {
    if failure.spec_is_fatal() {
        spec_message(failure, text) + "\n"@ + spec_shell_hint(command) + "\n"@
    } else {
        spec_message(failure, text) + "\n"@
    }
}

/// How the line for a failure of `operation` begins.
pub fn prefix(operation: Operation) -> (text: &'static str)
    ensures
        text@ == spec_prefix(operation),
{
    match operation {
        Operation::Launch => "failed to spawn subprocess, error: ",
        Operation::Attach => "failed to AssignProcessToJobObject, error: ",
        Operation::QueryPeak => "failed to QueryInformationJobObject, error: ",
        Operation::QueryTimes => "failed to get process times: ",
        Operation::QueryExitCode => "failed to GetExitCodeProcess, error: ",
    }
}

/// The digit that stands for `d`.
fn digit(d: u64) -> (text: &'static str)
    requires
        d < 10,
    ensures
        text@ == spec_digit(d as nat),
{
    if d == 0 {
        "0"
    } else if d == 1 {
        "1"
    } else if d == 2 {
        "2"
    } else if d == 3 {
        "3"
    } else if d == 4 {
        "4"
    } else if d == 5 {
        "5"
    } else if d == 6 {
        "6"
    } else if d == 7 {
        "7"
    } else if d == 8 {
        "8"
    } else {
        "9"
    }
}

/// Writes the decimal digits of `n` behind `text`.
fn append_decimal(text: &mut String, n: u64)
    ensures
        final(text)@ == old(text)@ + decimal(n as nat),
    decreases n,
{
    if n >= 10 {
        append_decimal(text, n / 10);
    }
    text.append(digit(n % 10));
}

/// An error code in decimal.
pub fn code_text(code: i32) -> (text: String)
    ensures
        text@ == spec_code_text(code as int),
{
    let wide: i64 = code as i64;
    if wide < 0 {
        let mut text = String::from_str("-");
        append_decimal(&mut text, (-wide) as u64);
        text
    } else {
        let mut text = String::new();
        append_decimal(&mut text, wide as u64);
        text
    }
}

impl Failure {
    /// The line to log for this failure, where `text` is what the system says
    /// of the error. The line carries the error code whatever the text is.
    pub fn message(&self, text: &str) -> (line: String)
        ensures
            line@ == spec_message(*self, text@),
    {
        let mut line = String::from_str(prefix(self.operation));
        line.append(text);
        line.append(" (os error ");
        let code = code_text(self.code);
        line.append(code.as_str());
        line.append(")");
        line
    }

    /// All that is written for this failure, where `text` is what the system
    /// says of the error and `command` is the command line that was to be
    /// launched: the line of the failure and, after a failed launch, the hint.
    pub fn lines(&self, text: &str, command: &str) -> (written: String)
        ensures
            written@ == spec_lines(*self, text@, command@),
    {
        let mut written = self.message(text);
        written.append("\n");
        if self.is_fatal() {
            let hint = shell_hint(command);
            written.append(hint.as_str());
            written.append("\n");
        }
        written
    }
}

/// The hint that follows a failed launch of `command`.
pub fn shell_hint(command: &str) -> (hint: String)
    ensures
        hint@ == spec_shell_hint(command@),
{
    let mut hint = String::from_str("you may need to use \"cmd /c ");
    hint.append(command);
    hint.append("\"");
    hint
}

} // verus!
