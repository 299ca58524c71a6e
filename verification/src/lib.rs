//! Triage and approval of the pull requests that a dependency-update bot
//! opens against a code host.
//!
//! The library holds every decision of a run and no input or output. A
//! caller fetches, reads and prints; it hands plain values in and gets
//! plain values back:
//!
//! - [`retry`]: how often a request is tried, and the pause between tries;
//! - [`http`]: the requests, their addresses, and which status is a success;
//! - [`outcome`]: which failures end a run, and with which exit status;
//! - [`discovery`]: which pull requests the bot, or the operator, opened;
//! - [`status`]: the most recent status of a pull request;
//! - [`candidates`]: the list that is shown, and what follows it;
//! - [`selection`] and [`prompt`]: what the operator's input means, and the
//!   dialogue that asks for it;
//! - [`submit`]: the approval of one candidate;
//! - [`review`]: which reviews are junk, and their dismissal;
//! - [`credential`], [`options`], [`dump`]: the settings of a run;
//! - [`text`], [`filter`]: the operations on texts and lists that the rest
//!   is stated over;
//! - [`model`]: the records.

pub mod candidates;
pub mod credential;
pub mod discovery;
pub mod dump;
pub mod filter;
pub mod http;
pub mod model;
pub mod options;
pub mod outcome;
pub mod prompt;
pub mod retry;
pub mod review;
pub mod selection;
pub mod status;
pub mod submit;
pub mod text;
