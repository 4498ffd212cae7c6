//! The terminal outcome of a session: what is written to which stream,
//! whether usage guidance follows, and the process exit code.

use vstd::prelude::*;
use vstd::string::StringExecFns;

use crate::protocol::CommandResponse;
use crate::text::{error_prefix, is_usage_sentinel, usage_sentinel};

verus! {

/// What the session hands to the output collaborator when it ends: at most
/// one line for each stream, whether to append the usage guidance to the
/// error stream, and the exit code.
pub struct Report {
    pub stdout_text: Option<String>,
    pub stderr_text: Option<String>,
    pub show_usage: bool,
    pub exit_code: u8,
}

/// The report of a remote success: the output verbatim on the normal stream,
/// nothing on the error stream, no usage guidance, exit code 0.
pub open spec fn success_report(r: Report, output: Seq<char>) -> bool {
    &&& r.stdout_text matches Some(s) && s@ == output
    &&& r.stderr_text is None
    &&& !r.show_usage
    &&& r.exit_code == 0
}

/// The report of a remote failure: the prefixed message on the error stream,
/// nothing on the normal stream, usage guidance exactly for the two sentinel
/// messages, exit code 1.
pub open spec fn failure_report(r: Report, message: Seq<char>) -> bool {
    &&& r.stdout_text is None
    &&& r.stderr_text matches Some(s) && s@ == error_prefix() + message
    &&& r.show_usage == is_usage_sentinel(message)
    &&& r.exit_code == 1
}

/// The report of a failed local step: its diagnostic on the error stream,
/// nothing else, exit code 1.
pub open spec fn fatal_report(r: Report, line: Seq<char>) -> bool {
    &&& r.stdout_text is None
    &&& r.stderr_text matches Some(s) && s@ == line
    &&& !r.show_usage
    &&& r.exit_code == 1
}

/// How a response event maps to a report, for both variants.
pub open spec fn response_report(resp: CommandResponse, r: Report) -> bool {
    match resp {
        CommandResponse::Success { output } => success_report(r, output@),
        CommandResponse::Failure { failure_message } => failure_report(r, failure_message@),
    }
}

/// Interprets the single response event of a session as a terminal report.
pub fn report_for(resp: &CommandResponse) -> (r: Report)
    ensures
        response_report(*resp, r),
{
    match resp {
        CommandResponse::Success { output } => Report {
            stdout_text: Some(output.clone()),
            stderr_text: None,
            show_usage: false,
            exit_code: 0,
        },
        CommandResponse::Failure { failure_message } => {
            let usage = usage_sentinel(failure_message);
            let line: String = "ERROR: ".to_owned().concat(failure_message.as_str());
            Report { stdout_text: None, stderr_text: Some(line), show_usage: usage, exit_code: 1 }
        },
    }
}

/// Builds the report a failed local step ends the session with.
pub fn fatal_report_for(line: String) -> (r: Report)
    ensures
        fatal_report(r, line@),
{
    Report { stdout_text: None, stderr_text: Some(line), show_usage: false, exit_code: 1 }
}

/// A remote failure carrying the "no command provided" sentinel is reported
/// with usage guidance in addition to the failure message, and exit code 1.
pub proof fn lemma_no_command_shows_usage(r: Report)
    requires
        failure_report(r, "No command provided\n"@),
    ensures
        r.show_usage,
        r.exit_code == 1,
{
}

/// A remote failure carrying the "unknown command" sentinel is likewise
/// reported with usage guidance and exit code 1.
pub proof fn lemma_unknown_command_shows_usage(r: Report)
    requires
        failure_report(r, "Unknown command\n"@),
    ensures
        r.show_usage,
        r.exit_code == 1,
{
}

} // verus!
