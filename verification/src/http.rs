//! Requests against the host API and the reading of its answers: the
//! addresses of its collections, the three kinds of request, and which
//! status means success.

use vstd::prelude::*;
use vstd::string::*;
use crate::model::{Approval, ApprovalView};
use crate::text::{decimal, decimal_string};

verus! {

/// The kind of a request.
#[derive(Debug, Clone, Copy, PartialEq, Eq)]
pub enum Method {
    Get,
    Post,
    Put,
}

/// What a request carries.
#[derive(Debug, Clone, PartialEq, Eq)]
pub enum Payload {
    /// Nothing.
    Empty,
    /// A text that is sent as it stands.
    Text(String),
    /// An approval, to be sent in the host's notation.
    Approval(Approval),
}

/// What a [`Payload`] holds.
pub enum PayloadView {
    Empty,
    Text(Seq<char>),
    Approval(ApprovalView),
}

impl View for Payload {
    type V = PayloadView;

    open spec fn view(&self) -> PayloadView {
        match self {
            Payload::Empty => PayloadView::Empty,
            Payload::Text(text) => PayloadView::Text(text@),
            Payload::Approval(approval) => PayloadView::Approval(approval@),
        }
    }
}

/// One request against the host.
#[derive(Debug, Clone, PartialEq, Eq)]
pub struct Request {
    pub method: Method,
    pub url: String,
    pub payload: Payload,
}

/// What a [`Request`] holds.
pub struct RequestView {
    pub method: Method,
    pub url: Seq<char>,
    pub payload: PayloadView,
}

impl View for Request {
    type V = RequestView;

    open spec fn view(&self) -> RequestView {
        RequestView { method: self.method, url: self.url@, payload: self.payload@ }
    }
}

/// The address of the host where no other is configured.
pub open spec fn default_base() -> Seq<char> {
    "https://api.github.com"@
}

/// The address of the host where no other is configured.
pub fn default_base_url() -> (base: String)
    ensures
        base@ == default_base(),
{
    "https://api.github.com".to_owned()
}

/// The address of the open pull requests of a repository.
pub open spec fn pulls_address(base: Seq<char>, owner: Seq<char>, repo: Seq<char>) -> Seq<char> {
    base + "/repos/"@ + owner + "/"@ + repo + "/pulls"@
}

/// The address of the reviews of pull request `number`.
pub open spec fn reviews_address(
    base: Seq<char>,
    owner: Seq<char>,
    repo: Seq<char>,
    number: nat,
) -> Seq<char> {
    pulls_address(base, owner, repo) + "/"@ + decimal(number) + "/reviews"@
}

/// The address at which review `review` of pull request `number` is
/// dismissed.
pub open spec fn dismissal_address(
    base: Seq<char>,
    owner: Seq<char>,
    repo: Seq<char>,
    number: nat,
    review: nat,
) -> Seq<char> {
    reviews_address(base, owner, repo, number) + "/"@ + decimal(review) + "/dismissals"@
}

/// The address of the open pull requests of a repository.
pub fn pulls_url(base: &str, owner: &str, repo: &str) -> (url: String)
    ensures
        url@ == pulls_address(base@, owner@, repo@),
{
    let mut url = base.to_owned();
    url.append("/repos/");
    url.append(owner);
    url.append("/");
    url.append(repo);
    url.append("/pulls");
    url
}

/// The address of the reviews of pull request `number`.
pub fn reviews_url(base: &str, owner: &str, repo: &str, number: u32) -> (url: String)
    ensures
        url@ == reviews_address(base@, owner@, repo@, number as nat),
{
    let mut url = pulls_url(base, owner, repo);
    url.append("/");
    let digits = decimal_string(number as u64);
    url.append(digits.as_str());
    url.append("/reviews");
    url
}

/// The address at which review `review` of pull request `number` is
/// dismissed.
pub fn dismissal_url(base: &str, owner: &str, repo: &str, number: u32, review: u64) -> (url:
    String)
    ensures
        url@ == dismissal_address(base@, owner@, repo@, number as nat, review as nat),
{
    let mut url = reviews_url(base, owner, repo, number);
    url.append("/");
    let digits = decimal_string(review);
    url.append(digits.as_str());
    url.append("/dismissals");
    url
}

/// The content type that a request of this kind declares: the host's
/// notation for a `Put`, none for the others.
pub open spec fn declared_content_type(method: Method) -> Option<Seq<char>> {
    match method {
        Method::Put => Some("application/json"@),
        _ => None,
    }
}

/// The content type to declare with a request of this kind.
pub fn content_type(method: Method) -> (declared: Option<String>)
    ensures
        match declared {
            Some(text) => declared_content_type(method) == Some(text@),
            None => declared_content_type(method) is None,
        },
{
    match method {
        Method::Put => Some("application/json".to_owned()),
        _ => None,
    }
}

/// Whether a status code is in the success class, 200 to 299.
pub open spec fn is_success(status: u16) -> bool {
    200 <= status < 300
}

/// Tells whether the host answered with a success status.
pub fn status_is_success(status: u16) -> (ok: bool)
    ensures
        ok == is_success(status),
{
    200 <= status && status < 300
}

/// The request that lists the open pull requests of a repository.
pub fn list_pulls_request(base: &str, owner: &str, repo: &str) -> (request: Request)
    ensures
        request@ == (RequestView {
            method: Method::Get,
            url: pulls_address(base@, owner@, repo@),
            payload: PayloadView::Empty,
        }),
{
    Request { method: Method::Get, url: pulls_url(base, owner, repo), payload: Payload::Empty }
}

} // verus!
