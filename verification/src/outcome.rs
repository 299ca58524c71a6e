//! How requests and runs end: the errors that end a run and their exit
//! statuses, which failures end a run and which cost one item only, and
//! what is said of a fetch that the host refused.

use vstd::prelude::*;
use vstd::string::*;
use crate::http::{is_success, status_is_success};
use crate::model::{text_of, Notice, NoticeView};
use crate::text::{decimal, decimal_string};

verus! {

/// Why a run ends early.
#[derive(Debug, Clone, Copy, PartialEq, Eq)]
pub enum RunError {
    /// The host could not be reached, after every retry.
    Transport,
    /// The host answered a fetch with a status outside the success class.
    ApiStatus { status: u16 },
    /// The operator's input could not be read within the allowed attempts.
    Parse,
    /// No credential was given.
    Config,
}

/// Exit status of a run that completes, with or without candidates.
pub const EXIT_OK: i32 = 0;

/// Exit status of a run that ends on a failed fetch.
pub const EXIT_FETCH_FAILED: i32 = 1;

/// Exit status of a run that ends for want of a credential or of readable
/// operator input.
pub const EXIT_USAGE: i32 = 67;

/// The exit status that goes with an error.
pub open spec fn exit_code_of(error: RunError) -> i32 {
    match error {
        RunError::Transport => EXIT_FETCH_FAILED,
        RunError::ApiStatus { .. } => EXIT_FETCH_FAILED,
        RunError::Parse => EXIT_USAGE,
        RunError::Config => EXIT_USAGE,
    }
}

/// The exit status that goes with an error.
pub fn exit_code(error: &RunError) -> (code: i32)
    ensures
        code == exit_code_of(*error),
{
    match error {
        RunError::Transport => EXIT_FETCH_FAILED,
        RunError::ApiStatus { .. } => EXIT_FETCH_FAILED,
        RunError::Parse => EXIT_USAGE,
        RunError::Config => EXIT_USAGE,
    }
}

/// The stages of a run that talk to the host.
#[derive(Debug, Clone, Copy, PartialEq, Eq)]
pub enum Stage {
    /// Listing the open pull requests.
    Discovery,
    /// Listing the status events of a pull request.
    Reconciliation,
    /// Listing the reviews of a pull request.
    Scan,
    /// Approving a pull request.
    Approval,
    /// Dismissing a review.
    Dismissal,
}

/// What becomes of a run once a request is over.
#[derive(Debug, Clone, Copy, PartialEq, Eq)]
pub enum Verdict {
    /// The host answered with success: go on with the answer.
    Proceed,
    /// The request failed, and only this item with it: say so and go on
    /// with the next.
    Skip,
    /// The request failed and the run ends with this error.
    Abort(RunError),
}

/// Tells whether a stage fetches what later stages decide on.
pub open spec fn is_fetch(stage: Stage) -> bool {
    stage is Discovery || stage is Reconciliation || stage is Scan
}

/// What becomes of a run once a request of `stage` is over. `answer` is
/// the status that the host answered with, or `None` where the host could
/// not be reached after every retry. A fetch that fails either way ends the
/// run: a list that may be incomplete is never shown or worked on. An
/// approval or a dismissal that fails costs that one item only.
pub open spec fn verdict_of(stage: Stage, answer: Option<u16>) -> Verdict {
    match answer {
        Some(status) => if is_success(status) {
            Verdict::Proceed
        } else if is_fetch(stage) {
            Verdict::Abort(RunError::ApiStatus { status })
        } else {
            Verdict::Skip
        },
        None => if is_fetch(stage) {
            Verdict::Abort(RunError::Transport)
        } else {
            Verdict::Skip
        },
    }
}

/// Decides what becomes of a run once a request is over.
pub fn judge(stage: Stage, answer: Option<u16>) -> (verdict: Verdict)
    ensures
        verdict == verdict_of(stage, answer),
{
    let fetch = match stage {
        Stage::Discovery => true,
        Stage::Reconciliation => true,
        Stage::Scan => true,
        Stage::Approval => false,
        Stage::Dismissal => false,
    };
    match answer {
        Some(status) => if status_is_success(status) {
            Verdict::Proceed
        } else if fetch {
            Verdict::Abort(RunError::ApiStatus { status })
        } else {
            Verdict::Skip
        },
        None => if fetch {
            Verdict::Abort(RunError::Transport)
        } else {
            Verdict::Skip
        },
    }
}

/// Tells whether a number is a status code: 100 to 999.
pub open spec fn is_status_code(status: u16) -> bool {
    100 <= status < 1000
}

/// The reason phrase that the `http` crate knows for a status code, such
/// as `Not Found` for 404, or `None` where it knows none.
pub uninterp spec fn reason_of(status: u16) -> Option<Seq<char>>;

/// Calls `StatusCode::from_u16` and `StatusCode::canonical_reason` of the
/// `http` crate, as `reqwest` hands them on. The first refuses exactly the
/// numbers below 100 and from 1000 on, for which no phrase is returned
/// here. The second looks the phrase up in a table, so its result is only
/// named: the same code always gives the same phrase.
#[verifier::external_body]
fn reason_phrase(status: u16) -> (phrase: Option<String>)
    ensures
        match phrase {
            Some(text) => is_status_code(status) && reason_of(status) == Some(text@),
            None => is_status_code(status) ==> reason_of(status) is None,
        },
{
    match reqwest::StatusCode::from_u16(status) {
        Ok(code) => code.canonical_reason().map(String::from),
        Err(_) => None,
    }
}

/// What stands in place of a reason phrase for a status code without one.
pub open spec fn unknown_reason() -> Seq<char> {
    "<unknown status code>"@
}

/// The line of a status code with an optional reason phrase: the number, a
/// space, and the phrase or what stands in its place.
pub open spec fn status_line_with(status: u16, reason: Option<Seq<char>>) -> Seq<char> {
    decimal(status as nat) + " "@ + (match reason {
        Some(phrase) => phrase,
        None => unknown_reason(),
    })
}

/// How a status is put in a notice: as the line of the status code, such
/// as `404 Not Found`, or as the bare number where it is no status code.
pub open spec fn status_text_of(status: u16) -> Seq<char> {
    if is_status_code(status) {
        status_line_with(status, reason_of(status))
    } else {
        decimal(status as nat)
    }
}

/// Writes the line of a status code with an optional reason phrase.
pub fn status_line(status: u16, reason: &Option<String>) -> (line: String)
    ensures
        line@ == status_line_with(status, text_of(*reason)),
{
    let mut line = decimal_string(status as u64);
    line.append(" ");
    match reason {
        Some(phrase) => line.append(phrase.as_str()),
        None => line.append("<unknown status code>"),
    }
    line
}

/// Writes a status as it is put in a notice.
pub fn status_text(status: u16) -> (text: String)
    ensures
        text@ == status_text_of(status),
{
    if 100 <= status && status < 1000 {
        let reason = reason_phrase(status);
        status_line(status, &reason)
    } else {
        decimal_string(status as u64)
    }
}

/// What is said of a fetch that the host refused: what was asked for, and
/// the status as the host put it.
pub open spec fn fetch_failure_text(subject: Seq<char>, status_text: Seq<char>) -> Seq<char> {
    "Failed to get pull requests for "@ + subject + ": "@ + status_text
}

/// How a repository is named in a notice: owner, slash, name.
pub open spec fn repository_name(owner: Seq<char>, repo: Seq<char>) -> Seq<char> {
    owner + "/"@ + repo
}

/// Writes how a repository is named in a notice.
pub fn repository_subject(owner: &str, repo: &str) -> (subject: String)
    ensures
        subject@ == repository_name(owner@, repo@),
{
    let mut subject = owner.to_owned();
    subject.append("/");
    subject.append(repo);
    subject
}

/// Writes the notice of a refused fetch from the status as it is put in
/// words. It goes to the error stream.
pub fn fetch_failure_notice(subject: &str, status_text: &str) -> (notice: Notice)
    ensures
        notice@ == (NoticeView {
            text: fetch_failure_text(subject@, status_text@),
            to_error_stream: true,
        }),
{
    let mut text = "Failed to get pull requests for ".to_owned();
    text.append(subject);
    text.append(": ");
    text.append(status_text);
    Notice { text, to_error_stream: true }
}

/// Writes the notice of a fetch that the host refused with `status`.
pub fn fetch_failure(subject: &str, status: u16) -> (notice: Notice)
    ensures
        notice@ == (NoticeView {
            text: fetch_failure_text(subject@, status_text_of(status)),
            to_error_stream: true,
        }),
{
    let text = status_text(status);
    fetch_failure_notice(subject, text.as_str())
}

} // verus!
