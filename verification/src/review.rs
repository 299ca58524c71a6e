//! The cleanup of reviews: which reviews of a pull request are junk, and
//! the requests that list them and dismiss them.

use vstd::prelude::*;
use vstd::string::*;
use crate::filter::{lemma_filter_all, lemma_filter_exact};
use crate::http::{
    dismissal_address, dismissal_url, is_success, reviews_address, reviews_url, status_is_success,
    Method, Payload, PayloadView, Request, RequestView,
};
use crate::model::{notices_of, text_of, Notice, NoticeView, PullRequest, Review, ReviewView};
use crate::text::{contains, contains_text, decimal, decimal_string};

verus! {

/// Tells whether a review is junk. Where a login is given the review must
/// be by that very login, and where a text is given the body must hold it,
/// character for character. A filter that is not given asks for nothing,
/// so with neither every review is junk.
pub open spec fn is_junk_review(
    review: ReviewView,
    login: Option<Seq<char>>,
    text: Option<Seq<char>>,
) -> bool {
    &&& login matches Some(l) ==> review.author == l
    &&& text matches Some(t) ==> contains_text(review.body, t)
}

/// The junk among `reviews`, in their order.
pub open spec fn junk_reviews_of(
    reviews: Seq<Review>,
    login: Option<Seq<char>>,
    text: Option<Seq<char>>,
) -> Seq<Review> {
    reviews.filter(|r: Review| is_junk_review(r@, login, text))
}

impl Review {
    /// Tells whether this review is junk under the two optional filters.
    pub fn is_junk(&self, login: &Option<String>, text: &Option<String>) -> (junk: bool)
        ensures
            junk == is_junk_review(self@, text_of(*login), text_of(*text)),
    {
        if let Some(login) = login {
            if !(*login == self.author) {
                return false;
            }
        }
        if let Some(text) = text {
            if !contains(self.body.as_str(), text.as_str()) {
                return false;
            }
        }
        true
    }
}

/// Keeps the reviews that are junk.
pub fn junk_reviews(reviews: Vec<Review>, login: &Option<String>, text: &Option<String>) -> (junk:
    Vec<Review>)
    ensures
        junk@ == junk_reviews_of(reviews@, text_of(*login), text_of(*text)),
{
    let mut junk: Vec<Review> = Vec::new();
    proof {
        reveal(Seq::filter);
    }
    for review in it: reviews
        invariant
            it.seq() == reviews@,
            junk@ == junk_reviews_of(
                it.seq().take(it.index() as int),
                text_of(*login),
                text_of(*text),
            ),
    {
        proof {
            reveal(Seq::filter);
            let next = it.seq().take(it.index() + 1);
            assert(next.drop_last() == it.seq().take(it.index() as int));
            assert(next.last() == review);
        }
        if review.is_junk(login, text) {
            junk.push(review);
        }
    }
    assert(reviews@.take(reviews@.len() as int) == reviews@);
    junk
}

/// With neither filter set, every review is junk and the whole list comes
/// back.
pub proof fn lemma_no_filter_keeps_all(reviews: Seq<Review>)
    ensures
        junk_reviews_of(reviews, None, None) == reviews,
{
    lemma_filter_all(reviews, |r: Review| is_junk_review(r@, None, None));
}

/// With both filters set, the junk holds exactly the reviews of the list
/// that are by the login and hold the text.
pub proof fn lemma_both_filters_must_hold(reviews: Seq<Review>, login: Seq<char>, text: Seq<char>)
    ensures
        forall|i: int|
            0 <= i < junk_reviews_of(reviews, Some(login), Some(text)).len() ==> {
                let review = #[trigger] junk_reviews_of(reviews, Some(login), Some(text))[i];
                &&& review@.author == login
                &&& contains_text(review@.body, text)
                &&& reviews.contains(review)
            },
        forall|i: int|
            0 <= i < reviews.len() && reviews[i]@.author == login && contains_text(
                reviews[i]@.body,
                text,
            ) ==> junk_reviews_of(reviews, Some(login), Some(text)).contains(#[trigger] reviews[i]),
{
    lemma_filter_exact(reviews, |r: Review| is_junk_review(r@, Some(login), Some(text)));
}

/// The text that is sent to dismiss a review.
pub open spec fn dismissal_body() -> Seq<char> {
    "{\"message\":\"junk\"}"@
}

/// The request that lists the reviews of a pull request.
pub fn reviews_request(base: &str, pr: &PullRequest) -> (request: Request)
    ensures
        request@ == (RequestView {
            method: Method::Get,
            url: reviews_address(base@, pr@.base_owner, pr@.base_repo, pr@.number),
            payload: PayloadView::Empty,
        }),
{
    Request {
        method: Method::Get,
        url: reviews_url(base, pr.base_owner.as_str(), pr.base_repo.as_str(), pr.number),
        payload: Payload::Empty,
    }
}

/// The request that dismisses one review of a pull request.
pub fn dismissal_request(base: &str, pr: &PullRequest, review: &Review) -> (request: Request)
    ensures
        request@ == (RequestView {
            method: Method::Put,
            url: dismissal_address(
                base@,
                pr@.base_owner,
                pr@.base_repo,
                pr@.number,
                review@.id,
            ),
            payload: PayloadView::Text(dismissal_body()),
        }),
{
    Request {
        method: Method::Put,
        url: dismissal_url(
            base,
            pr.base_owner.as_str(),
            pr.base_repo.as_str(),
            pr.number,
            review.id,
        ),
        payload: Payload::Text("{\"message\":\"junk\"}".to_owned()),
    }
}

/// What is said of a dismissal that the host refused.
pub open spec fn dismissal_refused_text(review: nat) -> Seq<char> {
    "Failed to dismiss review "@ + decimal(review)
}

/// What is reported once the host has answered a dismissal with `status`:
/// nothing on a success, else, on the error stream, the review and the
/// status. A refusal does not end the run: the reviews after it are still
/// dismissed.
pub open spec fn dismissal_report_of(review: nat, status: u16) -> Seq<NoticeView> {
    if is_success(status) {
        Seq::empty()
    } else {
        seq![
            NoticeView { text: dismissal_refused_text(review), to_error_stream: true },
            NoticeView { text: decimal(status as nat), to_error_stream: true },
        ]
    }
}

/// Writes what is reported once the host has answered a dismissal.
pub fn dismissal_report(review: &Review, status: u16) -> (report: Vec<Notice>)
    ensures
        notices_of(report@) == dismissal_report_of(review@.id, status),
{
    let mut report: Vec<Notice> = Vec::new();
    if !status_is_success(status) {
        let mut text = "Failed to dismiss review ".to_owned();
        let digits = decimal_string(review.id);
        text.append(digits.as_str());
        report.push(Notice { text, to_error_stream: true });
        report.push(Notice { text: decimal_string(status as u64), to_error_stream: true });
    }
    assert(notices_of(report@) =~= dismissal_report_of(review@.id, status));
    report
}

} // verus!
