//! Shell command execution (`execute`) and the answers for a finished,
//! failed or timed-out process.

use vstd::prelude::*;
use crate::json::{field_str, field_u64, get_str, get_u64, Json};
use crate::text::{cat, cat3, dec, fmt_i64, fmt_u64, int_dec, owned};
use crate::tools::ToolOutput;

verus! {

/// What `String::from_utf8_lossy` makes of a byte string.
pub uninterp spec fn lossy_text(bytes: Seq<u8>) -> Seq<char>;

/// `String::from_utf8_lossy`: the text is named [`lossy_text`] of the bytes,
/// and for valid UTF-8 it is the decoded text.
#[verifier::external_body]
fn utf8_lossy(bytes: &[u8]) -> (r: String)
    ensures
        r@ == lossy_text(bytes@),
        vstd::utf8::valid_utf8(bytes@) ==> r@ == vstd::utf8::decode_utf8(bytes@),
{
    String::from_utf8_lossy(bytes).into_owned()
}

/// The report of a finished process: its exit code (-1 when it has none),
/// then its standard output and error.
pub open spec fn process_report(exit_code: Option<i32>, stdout: Seq<u8>, stderr: Seq<u8>) -> Seq<
    char,
> {
    let code = match exit_code {
        Some(c) => c as int,
        None => -1,
    };
    "Exit code: "@ + int_dec(code) + "\nStdout:\n"@ + lossy_text(stdout) + "\nStderr:\n"@
        + lossy_text(stderr)
}

/// The answer for a process that ran to its end; an error unless it succeeded.
pub fn process_output(exit_code: Option<i32>, success: bool, stdout: &[u8], stderr: &[u8]) -> (r:
    ToolOutput)
    ensures
        r.content@ == process_report(exit_code, stdout@, stderr@),
        r.is_error == !success,
{
    let code: i64 = match exit_code {
        Some(c) => c as i64,
        None => -1,
    };
    let mut text = cat("Exit code: ", fmt_i64(code).as_str());
    text.append("\nStdout:\n");
    text.append(utf8_lossy(stdout).as_str());
    text.append("\nStderr:\n");
    text.append(utf8_lossy(stderr).as_str());
    ToolOutput { content: text, is_error: !success }
}

/// Runs shell commands in a working directory.
pub struct ExecuteTool {
    pub working_dir: String,
    pub default_timeout: u64,
}

impl ExecuteTool {
    /// A tool running commands in `working_dir`, with `default_timeout`
    /// seconds unless a call says otherwise.
    pub fn new(working_dir: String, default_timeout: u64) -> (r: Self)
        ensures
            r.working_dir == working_dir,
            r.default_timeout == default_timeout,
    {
        ExecuteTool { working_dir, default_timeout }
    }

    /// The command to run and its timeout in seconds (the `timeout` argument,
    /// else the default); a call without a `command` is refused.
    pub fn request(&self, args: &Json) -> (r: Result<(String, u64), ToolOutput>)
        ensures
            match field_str(args@, "command"@) {
                Some(c) => r matches Ok((cmd, t)) && cmd@ == c && t as nat == match field_u64(
                    args@,
                    "timeout"@,
                ) {
                    Some(n) => n,
                    None => self.default_timeout as nat,
                },
                None => r matches Err(o) && o.content@ == "Missing required argument: command"@
                    && o.is_error,
            },
    {
        match get_str(args, "command") {
            None => Err(
                ToolOutput { content: owned("Missing required argument: command"), is_error: true },
            ),
            Some(c) => {
                let t = match get_u64(args, "timeout") {
                    Some(n) => n,
                    None => self.default_timeout,
                };
                Ok((owned(c), t))
            },
        }
    }

    /// The answer when the process cannot be started.
    pub fn spawn_failure(error: &str) -> (r: ToolOutput)
        ensures
            r.content@ == "Failed to execute command: "@ + error@,
            r.is_error,
    {
        ToolOutput { content: cat("Failed to execute command: ", error), is_error: true }
    }

    /// The answer when the command outlives its timeout.
    pub fn timed_out(timeout_secs: u64) -> (r: ToolOutput)
        ensures
            r.content@ == "Command timed out after "@ + dec(timeout_secs as nat) + " seconds"@,
            r.is_error,
    {
        ToolOutput {
            content: cat3("Command timed out after ", fmt_u64(timeout_secs).as_str(), " seconds"),
            is_error: true,
        }
    }
}

} // verus!
