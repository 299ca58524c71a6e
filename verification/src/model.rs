//! The records that a run works on, each with the mathematical value that
//! contracts speak of.

use vstd::prelude::*;

verus! {

/// An open pull request, as fetched. It does not change during a run.
#[derive(Debug, Clone, PartialEq, Eq)]
pub struct PullRequest {
    /// The number that identifies the pull request in its repository.
    pub number: u32,
    pub title: String,
    /// Login of the account that opened it.
    pub author: String,
    /// The commit at the head of the branch to merge.
    pub head_sha: String,
    /// Login of the owner of the repository that it targets.
    pub base_owner: String,
    /// Name of the repository that it targets.
    pub base_repo: String,
    /// Where the status checks of its head commit are listed.
    pub statuses_url: String,
    /// Where its comments are listed.
    pub comments_url: String,
}

/// What a [`PullRequest`] holds.
pub struct PullRequestView {
    pub number: nat,
    pub title: Seq<char>,
    pub author: Seq<char>,
    pub head_sha: Seq<char>,
    pub base_owner: Seq<char>,
    pub base_repo: Seq<char>,
    pub statuses_url: Seq<char>,
    pub comments_url: Seq<char>,
}

impl View for PullRequest {
    type V = PullRequestView;

    open spec fn view(&self) -> PullRequestView {
        PullRequestView {
            number: self.number as nat,
            title: self.title@,
            author: self.author@,
            head_sha: self.head_sha@,
            base_owner: self.base_owner@,
            base_repo: self.base_repo@,
            statuses_url: self.statuses_url@,
            comments_url: self.comments_url@,
        }
    }
}

/// One result of an external check on a pull request's head commit.
#[derive(Debug, Clone, PartialEq, Eq)]
pub struct StatusEvent {
    /// When the result was reported, in nanoseconds since the Unix epoch.
    pub created_at: i128,
    /// Login of the account that reported it.
    pub reporter: String,
    /// The reported state, such as `success`, `pending` or `failure`.
    pub state: String,
}

/// What a [`StatusEvent`] holds.
pub struct StatusEventView {
    pub created_at: int,
    pub reporter: Seq<char>,
    pub state: Seq<char>,
}

impl View for StatusEvent {
    type V = StatusEventView;

    open spec fn view(&self) -> StatusEventView {
        StatusEventView {
            created_at: self.created_at as int,
            reporter: self.reporter@,
            state: self.state@,
        }
    }
}

/// A review left on a pull request.
#[derive(Debug, Clone, PartialEq, Eq)]
pub struct Review {
    pub id: u64,
    /// Login of the account that wrote it.
    pub author: String,
    pub body: String,
}

/// What a [`Review`] holds.
pub struct ReviewView {
    pub id: nat,
    pub author: Seq<char>,
    pub body: Seq<char>,
}

impl View for Review {
    type V = ReviewView;

    open spec fn view(&self) -> ReviewView {
        ReviewView { id: self.id as nat, author: self.author@, body: self.body@ }
    }
}

/// A pull request together with its most recent status. One exists only for
/// a pull request that has at least one status event that counts.
#[derive(Debug, Clone, PartialEq, Eq)]
pub struct Candidate {
    pub pr: PullRequest,
    pub status: String,
}

/// What a [`Candidate`] holds.
pub struct CandidateView {
    pub pr: PullRequestView,
    pub status: Seq<char>,
}

impl View for Candidate {
    type V = CandidateView;

    open spec fn view(&self) -> CandidateView {
        CandidateView { pr: self.pr@, status: self.status@ }
    }
}

/// The body of an approving review.
#[derive(Debug, Clone, PartialEq, Eq)]
pub struct Approval {
    /// The commit that is approved.
    pub commit_id: String,
    /// The message that goes with the approval.
    pub body: String,
    /// The kind of review.
    pub event: String,
    /// Comments on single lines. There are none.
    pub comments: [u8; 0],
}

/// What an [`Approval`] holds.
pub struct ApprovalView {
    pub commit_id: Seq<char>,
    pub body: Seq<char>,
    pub event: Seq<char>,
    pub comments: Seq<u8>,
}

impl View for Approval {
    type V = ApprovalView;

    open spec fn view(&self) -> ApprovalView {
        ApprovalView {
            commit_id: self.commit_id@,
            body: self.body@,
            event: self.event@,
            comments: self.comments@,
        }
    }
}

/// The message of every approval.
pub open spec fn approval_message() -> Seq<char> {
    "Approved automatically by dependabot merge"@
}

/// The review kind that approves.
pub open spec fn approve_event() -> Seq<char> {
    "APPROVE"@
}

/// The approval of the commit `sha`.
pub open spec fn approval_of(sha: Seq<char>) -> ApprovalView {
    ApprovalView {
        commit_id: sha,
        body: approval_message(),
        event: approve_event(),
        comments: Seq::<u8>::empty(),
    }
}

impl Approval {
    /// The approval of the commit `sha`: the fixed message, the approving
    /// kind of review, and no comments on lines.
    pub fn new(sha: &str) -> (approval: Self)
        ensures
            approval@ == approval_of(sha@),
    {
        let approval = Self {
            commit_id: sha.to_owned(),
            body: "Approved automatically by dependabot merge".to_owned(),
            event: "APPROVE".to_owned(),
            comments: [],
        };
        assert(approval.comments@ =~= Seq::<u8>::empty());
        approval
    }
}

/// A text for the operator and the stream it goes to.
#[derive(Debug, Clone, PartialEq, Eq)]
pub struct Notice {
    pub text: String,
    /// Whether the text goes to the error stream.
    pub to_error_stream: bool,
}

/// What a [`Notice`] holds.
pub struct NoticeView {
    pub text: Seq<char>,
    pub to_error_stream: bool,
}

impl View for Notice {
    type V = NoticeView;

    open spec fn view(&self) -> NoticeView {
        NoticeView { text: self.text@, to_error_stream: self.to_error_stream }
    }
}

/// What a list of notices holds.
pub open spec fn notices_of(notices: Seq<Notice>) -> Seq<NoticeView> {
    notices.map_values(|n: Notice| n@)
}

/// The text that an optional string holds, if it is there.
pub open spec fn text_of(s: Option<String>) -> Option<Seq<char>> {
    match s {
        Some(t) => Some(t@),
        None => None,
    }
}

/// The texts that a list of strings holds, in order.
pub open spec fn texts_of(list: Seq<String>) -> Seq<Seq<char>> {
    list.map_values(|s: String| s@)
}

} // verus!
