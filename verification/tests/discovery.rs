use dependabot_approve::discovery::{bot_prs, is_bot_login, is_bot_lowered, is_same_login, own_prs};
use dependabot_approve::model::PullRequest;

fn pull_by(number: u32, author: &str) -> PullRequest {
    PullRequest {
        number,
        title: format!("Bump something to {}", number),
        author: author.to_string(),
        head_sha: format!("sha{}", number),
        base_owner: "acme".to_string(),
        base_repo: "widgets".to_string(),
        statuses_url: format!("https://host.example/statuses/{}", number),
        comments_url: format!("https://host.example/comments/{}", number),
    }
}

#[test]
fn bot_logins_are_recognised_in_any_case() {
    assert!(is_bot_login("Dependabot[bot]"));
    assert!(is_bot_login("dependabot[bot]"));
    assert!(is_bot_login("DEPENDABOT-PREVIEW[BOT]"));
    assert!(is_bot_login("dependabot-preview[bot]"));
    assert!(!is_bot_login("some-user"));
    assert!(!is_bot_login("dependabot"));
    assert!(!is_bot_login(""));
    assert!(!is_bot_login("dependabot[bot] "));
}

#[test]
fn lowered_logins_are_compared_exactly() {
    assert!(is_bot_lowered("dependabot[bot]"));
    assert!(is_bot_lowered("dependabot-preview[bot]"));
    assert!(!is_bot_lowered("Dependabot[bot]"));
    assert!(!is_bot_lowered("some-user"));
}

#[test]
fn bot_filter_keeps_bot_pull_requests_in_order() {
    let prs = vec![
        pull_by(1, "Dependabot[bot]"),
        pull_by(2, "some-user"),
        pull_by(3, "dependabot[bot]"),
        pull_by(4, "DEPENDABOT-PREVIEW[BOT]"),
    ];
    let kept = bot_prs(prs);
    let numbers: Vec<u32> = kept.iter().map(|pr| pr.number).collect();
    assert_eq!(numbers, vec![1, 3, 4]);
    assert_eq!(kept[0], pull_by(1, "Dependabot[bot]"));
}

#[test]
fn bot_filter_is_idempotent() {
    let prs = vec![
        pull_by(1, "Dependabot[bot]"),
        pull_by(2, "some-user"),
        pull_by(3, "dependabot-preview[bot]"),
    ];
    let once = bot_prs(prs);
    let twice = bot_prs(once.clone());
    assert_eq!(once, twice);
}

#[test]
fn bot_filter_of_nothing_is_nothing() {
    assert_eq!(bot_prs(Vec::new()), Vec::new());
    assert_eq!(bot_prs(vec![pull_by(1, "human")]), Vec::new());
}

#[test]
fn own_pull_requests_are_found_without_regard_to_case() {
    let prs = vec![pull_by(1, "Operator"), pull_by(2, "dependabot[bot]"), pull_by(3, "operator")];
    let kept = own_prs(prs.clone(), "operator");
    let numbers: Vec<u32> = kept.iter().map(|pr| pr.number).collect();
    assert_eq!(numbers, vec![1, 3]);
    let kept = own_prs(prs, "OPERATOR");
    let numbers: Vec<u32> = kept.iter().map(|pr| pr.number).collect();
    assert_eq!(numbers, vec![1, 3]);
}

#[test]
fn logins_match_but_for_case() {
    assert!(is_same_login("Octocat", "octoCAT"));
    assert!(!is_same_login("octocat", "octocat2"));
}
