//! The computing half of the companion HTTP surface: what an execute
//! request answers, and how a rejected request maps to a status code and
//! a notice. The listening, routing and serialization around these live
//! outside the library.

use vstd::prelude::*;
use vstd::string::StringExecFns;
use crate::router::MAX_DISPLAY_SECS;
use crate::trusted::{clock_display, clock_text, now_unix, rfc3339_display, rfc3339_text};

verus! {

/// The answer to an execute request: the produced output, the exit code
/// of the command, and when the request was processed.
pub struct ExecuteOutcome {
    pub output: String,
    pub exit_code: i32,
    pub timestamp: String,
}

/// The output text for one executed command.
pub open spec fn execute_output_text(command: Seq<char>, clock: Seq<char>) -> Seq<char> {
    "executed: "@ + command + "\nat "@ + clock + "\n"@
}

/// Build the answer to an execute request from the command and the two
/// display forms of the processing time.
pub fn compose_execute_outcome(command: &str, clock: &str, timestamp: &str) -> (r: ExecuteOutcome)
    ensures
        r.output@ == execute_output_text(command@, clock@),
        r.exit_code == 0,
        r.timestamp@ == timestamp@,
{
    let mut output = String::from_str("executed: ");
    output.append(command);
    output.append("\nat ");
    output.append(clock);
    output.append("\n");
    ExecuteOutcome { output, exit_code: 0, timestamp: timestamp.to_owned() }
}

/// Answer an execute request at the present time: the output names the
/// command and a clock reading, the exit code is zero, and the timestamp
/// is the RFC 3339 form of the same reading.
pub fn execute_command(command: &str) -> (r: ExecuteOutcome)
    ensures
        r.exit_code == 0,
        exists|t: i64|
            {
                &&& 0 <= t <= MAX_DISPLAY_SECS
                &&& r.output@ == execute_output_text(command@, clock_text(t))
                &&& r.timestamp@ == rfc3339_text(t)
            },
{
    let now = now_unix();
    let secs: i64 = if 0 <= now && now <= MAX_DISPLAY_SECS {
        now
    } else {
        0
    };
    let clock = clock_display(secs);
    let timestamp = rfc3339_display(secs);
    compose_execute_outcome(command, clock.as_str(), timestamp.as_str())
}

/// The status code a rejected request answers with: not-found, then a
/// bad body, then a bad method, and everything else is an internal
/// error.
pub open spec fn rejection_status(not_found: bool, bad_body: bool, bad_method: bool) -> u16 {
    if not_found {
        404u16
    } else if bad_body {
        400u16
    } else if bad_method {
        405u16
    } else {
        500u16
    }
}

/// The notice a rejected request answers with.
pub open spec fn rejection_text(not_found: bool, bad_body: bool, bad_method: bool) -> Seq<char> {
    if not_found {
        "path not found"@
    } else if bad_body {
        "invalid request body"@
    } else if bad_method {
        "method not allowed"@
    } else {
        "internal server error"@
    }
}

/// Map what is known of a rejected request to its status code and notice,
/// exactly as `rejection_status` and `rejection_text` say.
pub fn classify_rejection(not_found: bool, bad_body: bool, bad_method: bool) -> (r: (u16, String))
    ensures
        r.0 == rejection_status(not_found, bad_body, bad_method),
        r.1@ == rejection_text(not_found, bad_body, bad_method),
{
    if not_found {
        (404, String::from_str("path not found"))
    } else if bad_body {
        (400, String::from_str("invalid request body"))
    } else if bad_method {
        (405, String::from_str("method not allowed"))
    } else {
        (500, String::from_str("internal server error"))
    }
}

/// The full answer to a rejected request: its status code, its notice,
/// and when it was rejected.
pub struct RejectionAnswer {
    pub status: u16,
    pub message: String,
    pub timestamp: String,
}

/// Answer a rejected request at the present time: status and notice
/// exactly as `classify_rejection` gives them, and the timestamp the
/// RFC 3339 form of a clamped clock reading.
pub fn reject_request(not_found: bool, bad_body: bool, bad_method: bool) -> (r: RejectionAnswer)
    ensures
        r.status == rejection_status(not_found, bad_body, bad_method),
        r.message@ == rejection_text(not_found, bad_body, bad_method),
        exists|t: i64| 0 <= t <= MAX_DISPLAY_SECS && r.timestamp@ == rfc3339_text(t),
{
    let now = now_unix();
    let secs: i64 = if 0 <= now && now <= MAX_DISPLAY_SECS {
        now
    } else {
        0
    };
    let timestamp = rfc3339_display(secs);
    let (status, message) = classify_rejection(not_found, bad_body, bad_method);
    RejectionAnswer { status, message, timestamp }
}

} // verus!
