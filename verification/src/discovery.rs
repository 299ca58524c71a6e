//! Picks, from the open pull requests of a repository, those that an
//! account of interest opened: the dependency-update bot under either of
//! its logins, or the operator. Logins are compared without regard to case.

use vstd::prelude::*;
use vstd::string::*;
use crate::filter::{lemma_filter_exact, lemma_filter_twice};
use crate::model::PullRequest;
use crate::text::{lowercase_of, same_text, to_lowercase};

verus! {

/// The login of the bot.
pub open spec fn bot_login() -> Seq<char> {
    "dependabot[bot]"@
}

/// The login that the bot had in its preview days.
pub open spec fn legacy_bot_login() -> Seq<char> {
    "dependabot-preview[bot]"@
}

/// Tells whether a login, already in lowercase, is one of the bot's.
pub open spec fn is_bot_identity(lowered: Seq<char>) -> bool {
    lowered == bot_login() || lowered == legacy_bot_login()
}

/// Tells whether a login is one of the bot's, whatever its case.
pub open spec fn is_bot_author(login: Seq<char>) -> bool {
    is_bot_identity(lowercase_of(login))
}

/// Tells whether two logins are the same but for case.
pub open spec fn same_login(a: Seq<char>, b: Seq<char>) -> bool {
    lowercase_of(a) == lowercase_of(b)
}

/// The pull requests of `prs` that the bot opened, in their order.
pub open spec fn bot_prs_of(prs: Seq<PullRequest>) -> Seq<PullRequest> {
    prs.filter(|pr: PullRequest| is_bot_author(pr@.author))
}

/// The pull requests of `prs` that the account `identity` opened, in their
/// order.
pub open spec fn own_prs_of(prs: Seq<PullRequest>, identity: Seq<char>) -> Seq<PullRequest> {
    prs.filter(|pr: PullRequest| same_login(pr@.author, identity))
}

/// Tells whether a login, already in lowercase, is one of the bot's.
pub fn is_bot_lowered(lowered: &str) -> (b: bool)
    ensures
        b == is_bot_identity(lowered@),
{
    same_text(lowered, "dependabot[bot]") || same_text(lowered, "dependabot-preview[bot]")
}

/// Tells whether a login is one of the bot's, whatever its case.
pub fn is_bot_login(login: &str) -> (b: bool)
    ensures
        b == is_bot_author(login@),
{
    let lowered = to_lowercase(login);
    is_bot_lowered(lowered.as_str())
}

/// Tells whether two logins are the same but for case.
pub fn is_same_login(a: &str, b: &str) -> (same: bool)
    ensures
        same == same_login(a@, b@),
{
    let x = to_lowercase(a);
    let y = to_lowercase(b);
    x == y
}

/// Keeps the pull requests that the bot opened.
pub fn bot_prs(prs: Vec<PullRequest>) -> (kept: Vec<PullRequest>)
    ensures
        kept@ == bot_prs_of(prs@),
{
    let mut kept: Vec<PullRequest> = Vec::new();
    proof {
        reveal(Seq::filter);
    }
    for pr in it: prs
        invariant
            it.seq() == prs@,
            kept@ == bot_prs_of(it.seq().take(it.index() as int)),
    {
        proof {
            reveal(Seq::filter);
            let next = it.seq().take(it.index() + 1);
            assert(next.drop_last() == it.seq().take(it.index() as int));
            assert(next.last() == pr);
        }
        if is_bot_login(pr.author.as_str()) {
            kept.push(pr);
        }
    }
    assert(prs@.take(prs@.len() as int) == prs@);
    kept
}

/// Keeps the pull requests that the account `identity` opened.
pub fn own_prs(prs: Vec<PullRequest>, identity: &str) -> (kept: Vec<PullRequest>)
    ensures
        kept@ == own_prs_of(prs@, identity@),
{
    let mut kept: Vec<PullRequest> = Vec::new();
    proof {
        reveal(Seq::filter);
    }
    for pr in it: prs
        invariant
            it.seq() == prs@,
            kept@ == own_prs_of(it.seq().take(it.index() as int), identity@),
    {
        proof {
            reveal(Seq::filter);
            let next = it.seq().take(it.index() + 1);
            assert(next.drop_last() == it.seq().take(it.index() as int));
            assert(next.last() == pr);
        }
        if is_same_login(pr.author.as_str(), identity) {
            kept.push(pr);
        }
    }
    assert(prs@.take(prs@.len() as int) == prs@);
    kept
}

/// The bot filter is idempotent: applied to its own result it keeps
/// everything.
pub proof fn lemma_bot_filter_idempotent(prs: Seq<PullRequest>)
    ensures
        bot_prs_of(bot_prs_of(prs)) == bot_prs_of(prs),
{
    lemma_filter_twice(prs, |pr: PullRequest| is_bot_author(pr@.author));
}

/// The bot filter keeps pull requests of the bot only, and none that was
/// not in the list.
pub proof fn lemma_bot_filter_keeps_bots(prs: Seq<PullRequest>, i: int)
    requires
        0 <= i < bot_prs_of(prs).len(),
    ensures
        is_bot_author(bot_prs_of(prs)[i]@.author),
        prs.contains(bot_prs_of(prs)[i]),
{
    lemma_filter_exact(prs, |pr: PullRequest| is_bot_author(pr@.author));
}

/// The bot filter does not look at case: whether it keeps a pull request
/// of the list is decided by any login that is the author's but for case.
pub proof fn lemma_bot_filter_ignores_case(prs: Seq<PullRequest>, i: int, login: Seq<char>)
    requires
        0 <= i < prs.len(),
        same_login(prs[i]@.author, login),
    ensures
        bot_prs_of(prs).contains(prs[i]) <==> is_bot_author(login),
{
    let keep = |pr: PullRequest| is_bot_author(pr@.author);
    lemma_filter_exact(prs, keep);
    if bot_prs_of(prs).contains(prs[i]) {
        let j = choose|j: int| 0 <= j < bot_prs_of(prs).len() && bot_prs_of(prs)[j] == prs[i];
        assert(keep(bot_prs_of(prs)[j]));
    }
}

/// The operator filter is idempotent too.
pub proof fn lemma_own_filter_idempotent(prs: Seq<PullRequest>, identity: Seq<char>)
    ensures
        own_prs_of(own_prs_of(prs, identity), identity) == own_prs_of(prs, identity),
{
    lemma_filter_twice(prs, |pr: PullRequest| same_login(pr@.author, identity));
}

} // verus!
