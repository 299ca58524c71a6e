//! The diagnostic side channel: when the raw answers of the host are kept
//! in files, and what the files are called. Nothing in a run reads them.

use vstd::prelude::*;
use vstd::string::*;
use crate::model::{text_of, PullRequest};
use crate::text::{decimal, decimal_string, same_text};

verus! {

/// The value of a toggle that switches the side channel on.
pub open spec fn toggle_on() -> Seq<char> {
    "1"@
}

/// Tells whether a toggle of the environment switches the side channel on:
/// only where it is set, and set to `1`.
pub fn dump_enabled(toggle: &Option<String>) -> (on: bool)
    ensures
        on == (text_of(*toggle) == Some(toggle_on())),
{
    match toggle {
        Some(value) => same_text(value.as_str(), "1"),
        None => false,
    }
}

/// The name of the file that keeps the list of pull requests of a
/// repository.
pub open spec fn pulls_dump_name_of(owner: Seq<char>, repo: Seq<char>) -> Seq<char> {
    "PRS."@ + owner + "."@ + repo + ".json"@
}

/// The name of the file that keeps the reviews of a pull request.
pub open spec fn reviews_dump_name_of(author: Seq<char>, number: nat) -> Seq<char> {
    "PRS."@ + author + "."@ + decimal(number) + ".json"@
}

/// The name of the file that keeps the status events of a pull request.
pub open spec fn statuses_dump_name_of(title: Seq<char>) -> Seq<char> {
    "statuses."@ + title + ".json"@
}

/// Writes the name of the file that keeps the list of pull requests.
pub fn pulls_dump_name(owner: &str, repo: &str) -> (name: String)
    ensures
        name@ == pulls_dump_name_of(owner@, repo@),
{
    let mut name = "PRS.".to_owned();
    name.append(owner);
    name.append(".");
    name.append(repo);
    name.append(".json");
    name
}

/// Writes the name of the file that keeps the reviews of `pr`.
pub fn reviews_dump_name(pr: &PullRequest) -> (name: String)
    ensures
        name@ == reviews_dump_name_of(pr@.author, pr@.number),
{
    let mut name = "PRS.".to_owned();
    name.append(pr.author.as_str());
    name.append(".");
    let digits = decimal_string(pr.number as u64);
    name.append(digits.as_str());
    name.append(".json");
    name
}

/// Writes the name of the file that keeps the status events of `pr`.
pub fn statuses_dump_name(pr: &PullRequest) -> (name: String)
    ensures
        name@ == statuses_dump_name_of(pr@.title),
{
    let mut name = "statuses.".to_owned();
    name.append(pr.title.as_str());
    name.append(".json");
    name
}

} // verus!
