//! From pull requests and their status events to the list that the operator
//! sees: pairing each pull request with its latest status, keeping the
//! statuses asked for, and writing the list down.

use vstd::prelude::*;
use vstd::string::*;
use crate::http::{Method, Payload, PayloadView, Request, RequestView};
use crate::model::{text_of, texts_of, Candidate, CandidateView, PullRequest, StatusEvent};
use crate::status::{is_latest, latest_status, none_qualifies};
use crate::text::{decimal, decimal_string};

verus! {

/// The request that lists the status events of a pull request.
pub fn statuses_request(pr: &PullRequest) -> (request: Request)
    ensures
        request@ == (RequestView {
            method: Method::Get,
            url: pr@.statuses_url,
            payload: PayloadView::Empty,
        }),
{
    Request { method: Method::Get, url: pr.statuses_url.clone(), payload: Payload::Empty }
}

/// Pairs a pull request with the state of its most recent status event
/// that counts. A pull request without such an event gives no candidate:
/// it is left out, which is no error.
pub fn candidate_for(pr: PullRequest, events: &Vec<StatusEvent>, reporter: &Option<String>) -> (r:
    Option<Candidate>)
    ensures
        match r {
            Some(candidate) => candidate.pr == pr && exists|i: int|
                is_latest(events@, text_of(*reporter), i) && candidate.status@
                    == events@[i]@.state,
            None => none_qualifies(events@, text_of(*reporter)),
        },
{
    match latest_status(events, reporter) {
        Some(status) => Some(Candidate { pr, status }),
        None => None,
    }
}

/// Tells whether a status passes the optional list of statuses asked for:
/// any status where no list is given, else only those on the list.
pub open spec fn status_allowed(allowed: Option<Seq<Seq<char>>>, status: Seq<char>) -> bool {
    match allowed {
        Some(list) => list.contains(status),
        None => true,
    }
}

/// The statuses that an optional list of strings asks for.
pub open spec fn allowed_of(allowed: Option<Vec<String>>) -> Option<Seq<Seq<char>>> {
    match allowed {
        Some(list) => Some(texts_of(list@)),
        None => None,
    }
}

/// The candidates whose status passes, in their order.
pub open spec fn allowed_candidates_of(
    candidates: Seq<Candidate>,
    allowed: Option<Seq<Seq<char>>>,
) -> Seq<Candidate> {
    candidates.filter(|c: Candidate| status_allowed(allowed, c@.status))
}

/// Tells whether a status passes the optional list of statuses asked for.
pub fn is_status_allowed(allowed: &Option<Vec<String>>, status: &String) -> (b: bool)
    ensures
        b == status_allowed(allowed_of(*allowed), status@),
{
    match allowed {
        None => true,
        Some(list) => {
            let mut i: usize = 0;
            while i < list.len()
                invariant
                    i <= list.len(),
                    texts_of(list@).len() == list.len(),
                    allowed_of(*allowed) == Some(texts_of(list@)),
                    forall|j: int| 0 <= j < i ==> texts_of(list@)[j] != status@,
                decreases list.len() - i,
            {
                if list[i] == *status {
                    assert(texts_of(list@)[i as int] == status@);
                    return true;
                }
                i = i + 1;
            }
            assert(!texts_of(list@).contains(status@));
            false
        },
    }
}

/// Keeps the candidates whose status passes.
pub fn retain_allowed(candidates: Vec<Candidate>, allowed: &Option<Vec<String>>) -> (kept: Vec<
    Candidate,
>)
    ensures
        kept@ == allowed_candidates_of(candidates@, allowed_of(*allowed)),
{
    let mut kept: Vec<Candidate> = Vec::new();
    proof {
        reveal(Seq::filter);
    }
    for candidate in it: candidates
        invariant
            it.seq() == candidates@,
            kept@ == allowed_candidates_of(
                it.seq().take(it.index() as int),
                allowed_of(*allowed),
            ),
    {
        proof {
            reveal(Seq::filter);
            let next = it.seq().take(it.index() + 1);
            assert(next.drop_last() == it.seq().take(it.index() as int));
            assert(next.last() == candidate);
        }
        if is_status_allowed(allowed, &candidate.status) {
            kept.push(candidate);
        }
    }
    assert(candidates@.take(candidates@.len() as int) == candidates@);
    kept
}

/// The line that presents a candidate at `position`, counted from 1: the
/// position, the title, and the status after a colon.
pub open spec fn candidate_line_of(position: nat, candidate: CandidateView) -> Seq<char> {
    decimal(position) + " "@ + candidate.pr.title + ": "@ + candidate.status
}

/// The text that says that nothing was found.
pub open spec fn nothing_found_text() -> Seq<char> {
    "No dependabot PRs found"@
}

/// The text that heads the list.
pub open spec fn heading_text() -> Seq<char> {
    "Dependabot PRs found\n----------"@
}

/// What the operator is shown: that nothing was found where there is no
/// candidate, else the heading and one line for each candidate, numbered
/// from 1 in the order of the list.
pub open spec fn listing_of(candidates: Seq<Candidate>) -> Seq<Seq<char>> {
    if candidates.len() == 0 {
        seq![nothing_found_text()]
    } else {
        seq![heading_text()] + Seq::new(
            candidates.len(),
            |i: int| candidate_line_of((i + 1) as nat, candidates[i]@),
        )
    }
}

/// Writes the line that presents a candidate at `position`.
pub fn candidate_line(position: u64, candidate: &Candidate) -> (line: String)
    ensures
        line@ == candidate_line_of(position as nat, candidate@),
{
    let mut line = decimal_string(position);
    line.append(" ");
    line.append(candidate.pr.title.as_str());
    line.append(": ");
    line.append(candidate.status.as_str());
    line
}

/// Writes what the operator is shown.
pub fn listing(candidates: &Vec<Candidate>) -> (lines: Vec<String>)
    ensures
        texts_of(lines@) == listing_of(candidates@),
{
    let mut lines: Vec<String> = Vec::new();
    if candidates.len() == 0 {
        lines.push("No dependabot PRs found".to_owned());
        assert(texts_of(lines@) =~= listing_of(candidates@));
        return lines;
    }
    lines.push("Dependabot PRs found\n----------".to_owned());
    let mut i: usize = 0;
    while i < candidates.len()
        invariant
            i <= candidates.len(),
            texts_of(lines@) == seq![heading_text()] + Seq::new(
                i as nat,
                |k: int| candidate_line_of((k + 1) as nat, candidates@[k]@),
            ),
        decreases candidates.len() - i,
    {
        let line = candidate_line(i as u64 + 1, &candidates[i]);
        let ghost before = texts_of(lines@);
        lines.push(line);
        assert(texts_of(lines@) =~= before.push(line@));
        i = i + 1;
        assert(texts_of(lines@) =~= seq![heading_text()] + Seq::new(
            i as nat,
            |k: int| candidate_line_of((k + 1) as nat, candidates@[k]@),
        ));
    }
    lines
}

/// What follows the presentation of the list.
#[derive(Debug, Clone, Copy, PartialEq, Eq)]
pub enum NextMove {
    /// There is no candidate: the run is complete.
    Finish,
    /// Approve every candidate without asking.
    ApproveAll,
    /// Ask the operator which candidates to approve.
    Ask,
}

/// What follows the presentation of `candidates` entries: nothing where
/// the list is empty, approval of all where it is forced, else the question
/// to the operator.
pub open spec fn move_after(candidates: nat, force: bool) -> NextMove {
    if candidates == 0 {
        NextMove::Finish
    } else if force {
        NextMove::ApproveAll
    } else {
        NextMove::Ask
    }
}

/// Decides what follows the presentation of the list.
pub fn next_move(candidates: usize, force: bool) -> (next: NextMove)
    ensures
        next == move_after(candidates as nat, force),
{
    if candidates == 0 {
        NextMove::Finish
    } else if force {
        NextMove::ApproveAll
    } else {
        NextMove::Ask
    }
}

} // verus!
