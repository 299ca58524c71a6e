//! The approval of one candidate: what to send, or what to say in its
//! place on a dry run, and what to report once the host has answered.

use vstd::prelude::*;
use vstd::string::*;
use crate::http::{
    is_success, reviews_address, reviews_url, status_is_success, Method, Payload, PayloadView,
    Request, RequestView,
};
use crate::model::{
    approval_of, notices_of, Approval, Notice, NoticeView, PullRequest, PullRequestView,
};
use crate::text::{decimal, decimal_string};

verus! {

/// How one approval is carried out.
#[derive(Debug, Clone, PartialEq, Eq)]
pub enum Submission {
    /// Nothing is sent. The notice, if there is one, tells the operator what
    /// would have been done.
    Simulated(Option<Notice>),
    /// This request is sent.
    Send(Request),
}

/// What a [`Submission`] holds.
pub enum SubmissionView {
    Simulated(Option<NoticeView>),
    Send(RequestView),
}

impl View for Submission {
    type V = SubmissionView;

    open spec fn view(&self) -> SubmissionView {
        match self {
            Submission::Simulated(notice) => SubmissionView::Simulated(
                match notice {
                    Some(n) => Some(n@),
                    None => None,
                },
            ),
            Submission::Send(request) => SubmissionView::Send(request@),
        }
    }
}

/// What a dry run says in place of an approval.
pub open spec fn dry_run_text(title: Seq<char>) -> Seq<char> {
    "Dry run approval for "@ + title
}

/// What is said of an approval that the host accepted.
pub open spec fn approved_text(title: Seq<char>) -> Seq<char> {
    "Successfully approved "@ + title
}

/// What is said of an approval that the host refused.
pub open spec fn refused_text(title: Seq<char>) -> Seq<char> {
    "Failed to approve "@ + title
}

/// How the approval of `pr` is carried out. On a dry run nothing is sent,
/// and the operator is told so unless the run is quiet. Otherwise the
/// approval of the head commit is posted to the reviews of the pull
/// request.
pub open spec fn submission_of(
    base: Seq<char>,
    pr: PullRequestView,
    dry_run: bool,
    quiet: bool,
) -> SubmissionView {
    if dry_run {
        SubmissionView::Simulated(
            if quiet {
                None
            } else {
                Some(NoticeView { text: dry_run_text(pr.title), to_error_stream: false })
            },
        )
    } else {
        SubmissionView::Send(
            RequestView {
                method: Method::Post,
                url: reviews_address(base, pr.base_owner, pr.base_repo, pr.number),
                payload: PayloadView::Approval(approval_of(pr.head_sha)),
            },
        )
    }
}

/// Decides how the approval of `pr` is carried out. A dry run never gives
/// a request.
pub fn plan_approval(base: &str, pr: &PullRequest, dry_run: bool, quiet: bool) -> (plan:
    Submission)
    ensures
        plan@ == submission_of(base@, pr@, dry_run, quiet),
        dry_run ==> plan is Simulated,
        !dry_run ==> plan is Send,
{
    if dry_run {
        if quiet {
            Submission::Simulated(None)
        } else {
            let mut text = "Dry run approval for ".to_owned();
            text.append(pr.title.as_str());
            Submission::Simulated(Some(Notice { text, to_error_stream: false }))
        }
    } else {
        Submission::Send(
            Request {
                method: Method::Post,
                url: reviews_url(
                    base,
                    pr.base_owner.as_str(),
                    pr.base_repo.as_str(),
                    pr.number,
                ),
                payload: Payload::Approval(Approval::new(pr.head_sha.as_str())),
            },
        )
    }
}

/// What is reported once the host has answered an approval with `status`.
/// A quiet run reports nothing. A success is reported as such. Any other
/// status is reported on the error stream, with the title and the status,
/// and does not end the run.
pub open spec fn approval_report_of(title: Seq<char>, status: u16, quiet: bool) -> Seq<NoticeView> {
    if quiet {
        Seq::empty()
    } else if is_success(status) {
        seq![NoticeView { text: approved_text(title), to_error_stream: false }]
    } else {
        seq![
            NoticeView { text: refused_text(title), to_error_stream: true },
            NoticeView { text: decimal(status as nat), to_error_stream: true },
        ]
    }
}

/// Writes what is reported once the host has answered an approval.
pub fn approval_report(title: &str, status: u16, quiet: bool) -> (report: Vec<Notice>)
    ensures
        notices_of(report@) == approval_report_of(title@, status, quiet),
{
    let mut report: Vec<Notice> = Vec::new();
    if quiet {
        assert(notices_of(report@) =~= approval_report_of(title@, status, quiet));
        return report;
    }
    if status_is_success(status) {
        let mut text = "Successfully approved ".to_owned();
        text.append(title);
        report.push(Notice { text, to_error_stream: false });
    } else {
        let mut text = "Failed to approve ".to_owned();
        text.append(title);
        report.push(Notice { text, to_error_stream: true });
        report.push(Notice { text: decimal_string(status as u64), to_error_stream: true });
    }
    assert(notices_of(report@) =~= approval_report_of(title@, status, quiet));
    report
}

} // verus!
