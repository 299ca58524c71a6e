//! The settings of an approving run, and the table that it prints of them
//! before it starts.

use vstd::prelude::*;
use vstd::string::*;
use crate::candidates::allowed_of;
use crate::model::{text_of, texts_of};

verus! {

/// The settings of a run that approves pull requests.
#[derive(Debug, Clone, PartialEq, Eq)]
pub struct ApproveOptions {
    /// The account that the credential belongs to.
    pub username: String,
    /// The owner of the repository to look at.
    pub owner: String,
    /// The repository to look at.
    pub repo: String,
    /// Count only the status events of this account.
    pub status_username: Option<String>,
    /// Keep only candidates with one of these statuses.
    pub filter: Option<Vec<String>>,
    /// The secret itself.
    pub api_key: Option<String>,
    /// The path of a file that holds the secret.
    pub key_path: Option<String>,
    /// Approve everything without asking.
    pub force: bool,
    /// Say what would be done and send nothing.
    pub dry_run: bool,
    /// Print neither the settings nor the results.
    pub quiet: bool,
}

/// What an [`ApproveOptions`] holds.
pub struct ApproveOptionsView {
    pub username: Seq<char>,
    pub owner: Seq<char>,
    pub repo: Seq<char>,
    pub status_username: Option<Seq<char>>,
    pub filter: Option<Seq<Seq<char>>>,
    pub api_key: Option<Seq<char>>,
    pub key_path: Option<Seq<char>>,
    pub force: bool,
    pub dry_run: bool,
    pub quiet: bool,
}

impl View for ApproveOptions {
    type V = ApproveOptionsView;

    open spec fn view(&self) -> ApproveOptionsView {
        ApproveOptionsView {
            username: self.username@,
            owner: self.owner@,
            repo: self.repo@,
            status_username: text_of(self.status_username),
            filter: allowed_of(self.filter),
            api_key: text_of(self.api_key),
            key_path: text_of(self.key_path),
            force: self.force,
            dry_run: self.dry_run,
            quiet: self.quiet,
        }
    }
}

/// The texts of `list`, each followed by a comma, one after the other.
pub open spec fn with_commas(list: Seq<Seq<char>>) -> Seq<char>
    decreases list.len(),
{
    if list.len() == 0 {
        Seq::empty()
    } else {
        with_commas(list.drop_last()) + list.last() + ","@
    }
}

/// One line where `present` holds, none where it does not.
pub open spec fn line_if(present: bool, line: Seq<char>) -> Seq<Seq<char>> {
    if present {
        seq![line]
    } else {
        Seq::empty()
    }
}

/// The table of settings: nothing on a quiet run, else a heading, the
/// account and the repository, and one line for each setting that is set.
/// The secret itself is never printed.
pub open spec fn summary_of(opts: ApproveOptionsView) -> Seq<Seq<char>> {
    if opts.quiet {
        Seq::empty()
    } else {
        seq![
            "Running approvals"@,
            "----------"@,
            "Username: "@ + opts.username,
            "Repo: "@ + opts.owner + "/"@ + opts.repo,
        ] + line_if(
            opts.status_username is Some,
            "Status posted by: "@ + opts.status_username->0,
        ) + line_if(opts.filter is Some, "Acceptable statuses "@ + with_commas(opts.filter->0))
            + line_if(opts.key_path is Some, "Using key path: "@ + opts.key_path->0) + line_if(
            opts.api_key is Some,
            "Using an api key"@,
        ) + line_if(opts.dry_run, "Dry run"@) + line_if(opts.force, "Forced!"@)
    }
}

fn statuses_line(filter: &Vec<String>) -> (line: String)
    ensures
        line@ == "Acceptable statuses "@ + with_commas(texts_of(filter@)),
{
    let mut line = "Acceptable statuses ".to_owned();
    let ghost all = texts_of(filter@);
    let mut i: usize = 0;
    assert(all.take(0) == Seq::<Seq<char>>::empty());
    while i < filter.len()
        invariant
            i <= filter.len(),
            all == texts_of(filter@),
            line@ == "Acceptable statuses "@ + with_commas(all.take(i as int)),
        decreases filter.len() - i,
    {
        proof {
            let next = all.take(i + 1);
            assert(next.drop_last() == all.take(i as int));
            assert(next.last() == filter@[i as int]@);
        }
        line.append(filter[i].as_str());
        line.append(",");
        i = i + 1;
    }
    assert(all.take(filter.len() as int) == all);
    line
}

/// Writes the table of settings.
pub fn options_summary(opts: &ApproveOptions) -> (lines: Vec<String>)
    ensures
        texts_of(lines@) == summary_of(opts@),
{
    let mut lines: Vec<String> = Vec::new();
    if opts.quiet {
        assert(texts_of(lines@) =~= summary_of(opts@));
        return lines;
    }
    lines.push("Running approvals".to_owned());
    lines.push("----------".to_owned());
    let mut username = "Username: ".to_owned();
    username.append(opts.username.as_str());
    lines.push(username);
    let mut repo = "Repo: ".to_owned();
    repo.append(opts.owner.as_str());
    repo.append("/");
    repo.append(opts.repo.as_str());
    lines.push(repo);
    let ghost v = opts@;
    let ghost head = seq![
        "Running approvals"@,
        "----------"@,
        "Username: "@ + v.username,
        "Repo: "@ + v.owner + "/"@ + v.repo,
    ];
    assert(texts_of(lines@) =~= head);
    if let Some(status_username) = &opts.status_username {
        let mut line = "Status posted by: ".to_owned();
        line.append(status_username.as_str());
        lines.push(line);
    }
    let ghost first = head + line_if(
        v.status_username is Some,
        "Status posted by: "@ + v.status_username->0,
    );
    assert(texts_of(lines@) =~= first);
    if let Some(filter) = &opts.filter {
        lines.push(statuses_line(filter));
    }
    let ghost second = first + line_if(
        v.filter is Some,
        "Acceptable statuses "@ + with_commas(v.filter->0),
    );
    assert(texts_of(lines@) =~= second);
    if let Some(path) = &opts.key_path {
        let mut line = "Using key path: ".to_owned();
        line.append(path.as_str());
        lines.push(line);
    }
    let ghost third = second + line_if(v.key_path is Some, "Using key path: "@ + v.key_path->0);
    assert(texts_of(lines@) =~= third);
    if opts.api_key.is_some() {
        lines.push("Using an api key".to_owned());
    }
    let ghost fourth = third + line_if(v.api_key is Some, "Using an api key"@);
    assert(texts_of(lines@) =~= fourth);
    if opts.dry_run {
        lines.push("Dry run".to_owned());
    }
    let ghost fifth = fourth + line_if(v.dry_run, "Dry run"@);
    assert(texts_of(lines@) =~= fifth);
    if opts.force {
        lines.push("Forced!".to_owned());
    }
    assert(texts_of(lines@) =~= fifth + line_if(v.force, "Forced!"@));
    lines
}

} // verus!
