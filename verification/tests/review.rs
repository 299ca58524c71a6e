use dependabot_approve::http::{Method, Payload};
use dependabot_approve::model::{PullRequest, Review};
use dependabot_approve::review::{dismissal_request, junk_reviews, reviews_request};

fn review_by(id: u64, author: &str, body: &str) -> Review {
    Review { id, author: author.to_string(), body: body.to_string() }
}

fn reviewed_pull() -> PullRequest {
    PullRequest {
        number: 42,
        title: "Bump left-pad".to_string(),
        author: "operator".to_string(),
        head_sha: "abc123".to_string(),
        base_owner: "acme".to_string(),
        base_repo: "widgets".to_string(),
        statuses_url: "https://host.example/statuses/abc123".to_string(),
        comments_url: "https://host.example/comments/42".to_string(),
    }
}

fn sample_reviews() -> Vec<Review> {
    vec![
        review_by(1, "bot-x", "this is spam"),
        review_by(2, "bot-x", "looks good"),
        review_by(3, "human", "spam spam spam"),
        review_by(4, "bot-x", "SPAM"),
        review_by(5, "Bot-X", "spam"),
        review_by(6, "bot-x", "more spam here"),
    ]
}

#[test]
fn both_filters_must_hold() {
    let junk = junk_reviews(sample_reviews(), &Some("bot-x".to_string()), &Some("spam".to_string()));
    let ids: Vec<u64> = junk.iter().map(|r| r.id).collect();
    assert_eq!(ids, vec![1, 6]);
}

#[test]
fn no_filter_keeps_every_review() {
    let junk = junk_reviews(sample_reviews(), &None, &None);
    assert_eq!(junk, sample_reviews());
}

#[test]
fn login_filter_alone_compares_logins_exactly() {
    let junk = junk_reviews(sample_reviews(), &Some("bot-x".to_string()), &None);
    let ids: Vec<u64> = junk.iter().map(|r| r.id).collect();
    assert_eq!(ids, vec![1, 2, 4, 6]);
}

#[test]
fn text_filter_alone_is_case_sensitive() {
    let junk = junk_reviews(sample_reviews(), &None, &Some("spam".to_string()));
    let ids: Vec<u64> = junk.iter().map(|r| r.id).collect();
    assert_eq!(ids, vec![1, 3, 5, 6]);
}

#[test]
fn is_junk_judges_one_review() {
    let review = review_by(9, "bot-x", "this is spam");
    assert!(review.is_junk(&None, &None));
    assert!(review.is_junk(&Some("bot-x".to_string()), &Some("spam".to_string())));
    assert!(!review.is_junk(&Some("bot-y".to_string()), &Some("spam".to_string())));
    assert!(!review.is_junk(&Some("bot-x".to_string()), &Some("ham".to_string())));
    assert!(review.is_junk(&None, &Some("".to_string())));
}

#[test]
fn reviews_are_listed_at_the_pull_request() {
    let request = reviews_request("https://api.github.com", &reviewed_pull());
    assert_eq!(request.method, Method::Get);
    assert_eq!(request.url, "https://api.github.com/repos/acme/widgets/pulls/42/reviews");
    assert_eq!(request.payload, Payload::Empty);
}

#[test]
fn a_review_is_dismissed_with_a_put() {
    let request =
        dismissal_request("https://api.github.com", &reviewed_pull(), &review_by(77, "x", "y"));
    assert_eq!(request.method, Method::Put);
    assert_eq!(
        request.url,
        "https://api.github.com/repos/acme/widgets/pulls/42/reviews/77/dismissals"
    );
    assert_eq!(request.payload, Payload::Text("{\"message\":\"junk\"}".to_string()));
}
