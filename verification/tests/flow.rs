use dependabot_approve::candidates::{
    candidate_for, candidate_line, is_status_allowed, listing, next_move, retain_allowed,
    statuses_request, NextMove,
};
use dependabot_approve::discovery::bot_prs;
use dependabot_approve::http::{Method, Payload, Request};
use dependabot_approve::model::{Candidate, PullRequest, StatusEvent};
use dependabot_approve::selection::{plan_selection, Confirmation, SelectionStep};
use dependabot_approve::submit::{plan_approval, Submission};

fn bot_pull(number: u32, title: &str) -> PullRequest {
    PullRequest {
        number,
        title: title.to_string(),
        author: "dependabot[bot]".to_string(),
        head_sha: format!("head{}", number),
        base_owner: "acme".to_string(),
        base_repo: "widgets".to_string(),
        statuses_url: format!("https://host.example/statuses/head{}", number),
        comments_url: format!("https://host.example/comments/{}", number),
    }
}

fn reported(created_at: i128, state: &str) -> StatusEvent {
    StatusEvent { created_at, reporter: "ci".to_string(), state: state.to_string() }
}

fn candidate_with(number: u32, title: &str, status: &str) -> Candidate {
    Candidate { pr: bot_pull(number, title), status: status.to_string() }
}

/// Everything that an approving run sends once the list is known.
fn requests_of_forced_run(candidates: &Vec<Candidate>, dry_run: bool) -> Vec<Request> {
    let mut sent = Vec::new();
    assert_eq!(next_move(candidates.len(), true), NextMove::ApproveAll);
    for step in plan_selection(&Confirmation::All, candidates.len()) {
        match step {
            SelectionStep::Submit(index) => {
                let pr = &candidates[index].pr;
                if let Submission::Send(request) =
                    plan_approval("https://api.github.com", pr, dry_run, false)
                {
                    sent.push(request);
                }
            }
            SelectionStep::Skip(position) => panic!("skipped {}", position),
        }
    }
    sent
}

#[test]
fn two_bot_pull_requests_one_with_statuses_give_one_post() {
    let t1 = 1_600_000_000_000_000_000i128;
    let t2 = t1 + 60_000_000_000;
    let fetched = vec![bot_pull(1, "Bump a"), bot_pull(2, "Bump b")];
    let statuses = vec![vec![reported(t1, "pending"), reported(t2, "success")], Vec::new()];

    let prs = bot_prs(fetched);
    assert_eq!(prs.len(), 2);
    let mut candidates = Vec::new();
    for (pr, events) in prs.into_iter().zip(statuses.iter()) {
        if let Some(candidate) = candidate_for(pr, events, &None) {
            candidates.push(candidate);
        }
    }
    let candidates = retain_allowed(candidates, &None);
    assert_eq!(candidates, vec![candidate_with(1, "Bump a", "success")]);
    assert_eq!(listing(&candidates), vec!["Dependabot PRs found\n----------", "1 Bump a: success"]);

    let sent = requests_of_forced_run(&candidates, false);
    assert_eq!(sent.len(), 1);
    assert_eq!(sent[0].method, Method::Post);
    assert_eq!(sent[0].url, "https://api.github.com/repos/acme/widgets/pulls/1/reviews");
    match &sent[0].payload {
        Payload::Approval(approval) => assert_eq!(approval.commit_id, "head1"),
        other => panic!("unexpected payload {:?}", other),
    }
}

#[test]
fn a_dry_run_of_the_same_scenario_sends_nothing() {
    let candidates = vec![candidate_with(1, "Bump a", "success")];
    assert!(requests_of_forced_run(&candidates, true).is_empty());
}

#[test]
fn a_pull_request_without_statuses_is_dropped_without_error() {
    assert_eq!(candidate_for(bot_pull(2, "Bump b"), &Vec::new(), &None), None);
    let events = vec![reported(5, "success")];
    assert_eq!(candidate_for(bot_pull(2, "Bump b"), &events, &Some("other".to_string())), None);
    assert_eq!(
        candidate_for(bot_pull(2, "Bump b"), &events, &Some("ci".to_string())),
        Some(candidate_with(2, "Bump b", "success"))
    );
}

#[test]
fn statuses_are_fetched_where_the_pull_request_says() {
    let request = statuses_request(&bot_pull(9, "Bump z"));
    assert_eq!(request.method, Method::Get);
    assert_eq!(request.url, "https://host.example/statuses/head9");
    assert_eq!(request.payload, Payload::Empty);
}

#[test]
fn status_filter_keeps_the_statuses_asked_for() {
    let candidates = vec![
        candidate_with(1, "a", "success"),
        candidate_with(2, "b", "pending"),
        candidate_with(3, "c", "failure"),
        candidate_with(4, "d", "success"),
    ];
    let allowed = Some(vec!["success".to_string(), "failure".to_string()]);
    let kept = retain_allowed(candidates.clone(), &allowed);
    let numbers: Vec<u32> = kept.iter().map(|c| c.pr.number).collect();
    assert_eq!(numbers, vec![1, 3, 4]);
    assert_eq!(retain_allowed(candidates.clone(), &None), candidates);
    assert_eq!(retain_allowed(candidates, &Some(Vec::new())), Vec::new());
}

#[test]
fn a_status_passes_by_exact_match() {
    let allowed = Some(vec!["success".to_string()]);
    assert!(is_status_allowed(&allowed, &"success".to_string()));
    assert!(!is_status_allowed(&allowed, &"Success".to_string()));
    assert!(!is_status_allowed(&allowed, &"succes".to_string()));
    assert!(is_status_allowed(&None, &"anything".to_string()));
    assert!(!is_status_allowed(&Some(Vec::new()), &"success".to_string()));
}

#[test]
fn the_list_numbers_candidates_from_one() {
    let candidates = vec![
        candidate_with(11, "Bump a", "success"),
        candidate_with(12, "Bump b", "pending"),
        candidate_with(13, "Bump c", "custom: state"),
    ];
    assert_eq!(
        listing(&candidates),
        vec![
            "Dependabot PRs found\n----------",
            "1 Bump a: success",
            "2 Bump b: pending",
            "3 Bump c: custom: state",
        ]
    );
    assert_eq!(candidate_line(10, &candidates[0]), "10 Bump a: success");
}

#[test]
fn an_empty_list_says_that_nothing_was_found() {
    assert_eq!(listing(&Vec::new()), vec!["No dependabot PRs found"]);
    assert_eq!(next_move(0, false), NextMove::Finish);
    assert_eq!(next_move(0, true), NextMove::Finish);
}

#[test]
fn the_operator_is_asked_unless_approval_is_forced() {
    assert_eq!(next_move(2, false), NextMove::Ask);
    assert_eq!(next_move(2, true), NextMove::ApproveAll);
}
