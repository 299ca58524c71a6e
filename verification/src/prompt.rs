//! The dialogue that asks the operator which candidates to approve. It
//! accepts the first line that means something and gives up after five that
//! do not. The caller reads the lines and prints the notices; every decision
//! is taken here.

use vstd::prelude::*;
use vstd::string::*;
use crate::outcome::{exit_code, exit_code_of, RunError, EXIT_USAGE};
use crate::model::Notice;
use crate::selection::{parse_confirmation, translate_stdin, Confirmation, ConfirmationView};

verus! {

/// Lines that the operator may enter before the dialogue gives up.
pub const MAX_ATTEMPTS: u8 = 5;

/// Where the dialogue stands.
#[derive(Debug, Clone, PartialEq, Eq)]
pub enum PromptState {
    /// The list has been shown and no line has been read yet.
    AwaitingInput,
    /// This many lines were read and none of them meant anything.
    Retrying { failures: u8 },
    /// A line was understood. The dialogue is over.
    Validated(Confirmation),
    /// Too many lines meant nothing. The dialogue is over and the run ends.
    Aborted,
}

/// What a [`PromptState`] holds.
pub enum PromptStateView {
    AwaitingInput,
    Retrying { failures: nat },
    Validated(ConfirmationView),
    Aborted,
}

impl View for PromptState {
    type V = PromptStateView;

    open spec fn view(&self) -> PromptStateView {
        match self {
            PromptState::AwaitingInput => PromptStateView::AwaitingInput,
            PromptState::Retrying { failures } => PromptStateView::Retrying {
                failures: *failures as nat,
            },
            PromptState::Validated(choice) => PromptStateView::Validated(choice@),
            PromptState::Aborted => PromptStateView::Aborted,
        }
    }
}

/// Tells whether the dialogue is over.
pub open spec fn is_final(state: PromptStateView) -> bool {
    state is Validated || state is Aborted
}

/// The number of lines read so far that meant nothing.
pub open spec fn failures_of(state: PromptStateView) -> nat {
    match state {
        PromptStateView::Retrying { failures } => failures,
        _ => 0,
    }
}

/// The state after one more line. A line that means something ends the
/// dialogue with its choice. One that does not is counted, and the fifth
/// such line ends the dialogue without a choice. Once over, the dialogue
/// stays as it is.
pub open spec fn next_state(state: PromptStateView, line: Seq<char>) -> PromptStateView {
    if is_final(state) {
        state
    } else {
        match parse_confirmation(line) {
            Some(choice) => PromptStateView::Validated(choice),
            None => if failures_of(state) + 1 >= MAX_ATTEMPTS {
                PromptStateView::Aborted
            } else {
                PromptStateView::Retrying { failures: failures_of(state) + 1 }
            },
        }
    }
}

/// The state after a run of lines, read in order.
pub open spec fn state_after(state: PromptStateView, lines: Seq<Seq<char>>) -> PromptStateView
    decreases lines.len(),
{
    if lines.len() == 0 {
        state
    } else {
        state_after(next_state(state, lines.first()), lines.drop_first())
    }
}

/// Takes one line of input into account.
pub fn advance(state: PromptState, line: &str) -> (next: PromptState)
    ensures
        next@ == next_state(state@, line@),
{
    let failures: u8 = match state {
        PromptState::AwaitingInput => 0,
        PromptState::Retrying { failures } => failures,
        PromptState::Validated(choice) => {
            return PromptState::Validated(choice);
        },
        PromptState::Aborted => {
            return PromptState::Aborted;
        },
    };
    match translate_stdin(line) {
        Some(choice) => PromptState::Validated(choice),
        None => if failures >= MAX_ATTEMPTS - 1 {
            PromptState::Aborted
        } else {
            PromptState::Retrying { failures: failures + 1 }
        },
    }
}

/// The error that a state stands for: unreadable input once the dialogue
/// has given up, none in any other state.
pub open spec fn error_of(state: PromptStateView) -> Option<RunError> {
    if state is Aborted {
        Some(RunError::Parse)
    } else {
        None
    }
}

/// The error with which a run ends in this state, if it ends.
pub fn failure(state: &PromptState) -> (error: Option<RunError>)
    ensures
        error == error_of(state@),
{
    match state {
        PromptState::Aborted => Some(RunError::Parse),
        _ => None,
    }
}

/// The exit status that a state asks for: 67 once the dialogue has given up,
/// none in any other state.
pub fn exit_status(state: &PromptState) -> (code: Option<i32>)
    ensures
        code == (if state@ is Aborted {
            Some(EXIT_USAGE)
        } else {
            None::<i32>
        }),
        code == (match error_of(state@) {
            Some(error) => Some(exit_code_of(error)),
            None => None::<i32>,
        }),
{
    match failure(state) {
        Some(error) => Some(exit_code(&error)),
        None => None,
    }
}

/// The text that opens the dialogue.
pub open spec fn opening_text() -> Seq<char> {
    "Please enter which PRs you'd like to approve as a comma\nseparated list or 'all' for all entries"@
}

/// The text that asks for another line.
pub open spec fn retry_text() -> Seq<char> {
    "Unable to parse input, please try again"@
}

/// The text that ends a dialogue without a choice.
pub open spec fn gave_up_text() -> Seq<char> {
    "Failed to parse input 5 times, exiting"@
}

/// What to tell the operator on entering a state: the opening request, a
/// request for another line, or, on the error stream, that the dialogue gave
/// up. A dialogue that ended with a choice says nothing.
pub fn notice_for(state: &PromptState) -> (notice: Option<Notice>)
    ensures
        match state@ {
            PromptStateView::AwaitingInput => notice matches Some(n) && n.text@ == opening_text()
                && !n.to_error_stream,
            PromptStateView::Retrying { .. } => notice matches Some(n) && n.text@ == retry_text()
                && !n.to_error_stream,
            PromptStateView::Validated(_) => notice is None,
            PromptStateView::Aborted => notice matches Some(n) && n.text@ == gave_up_text()
                && n.to_error_stream,
        },
{
    match state {
        PromptState::AwaitingInput => Some(
            Notice {
                text: "Please enter which PRs you'd like to approve as a comma\nseparated list or 'all' for all entries".to_owned(),
                to_error_stream: false,
            },
        ),
        PromptState::Retrying { .. } => Some(
            Notice { text: "Unable to parse input, please try again".to_owned(), to_error_stream: false },
        ),
        PromptState::Validated(_) => None,
        PromptState::Aborted => Some(
            Notice { text: "Failed to parse input 5 times, exiting".to_owned(), to_error_stream: true },
        ),
    }
}

/// After `k` lines that mean nothing, with fewer than five in all, the
/// dialogue is still open and has counted them.
pub proof fn lemma_failures_are_counted(state: PromptStateView, lines: Seq<Seq<char>>)
    requires
        !is_final(state),
        failures_of(state) + lines.len() < MAX_ATTEMPTS,
        forall|i: int| 0 <= i < lines.len() ==> parse_confirmation(#[trigger] lines[i]) is None,
    ensures
        !is_final(state_after(state, lines)),
        failures_of(state_after(state, lines)) == failures_of(state) + lines.len(),
    decreases lines.len(),
{
    if lines.len() > 0 {
        let rest = lines.drop_first();
        assert(parse_confirmation(lines[0]) is None);
        assert forall|i: int| 0 <= i < rest.len() implies parse_confirmation(
            #[trigger] rest[i],
        ) is None by {
            assert(rest[i] == lines[i + 1]);
        }
        lemma_failures_are_counted(next_state(state, lines.first()), rest);
    }
}

/// A dialogue that is over stays as it is, whatever is read.
pub proof fn lemma_final_state_stays(state: PromptStateView, lines: Seq<Seq<char>>)
    requires
        is_final(state),
    ensures
        state_after(state, lines) == state,
    decreases lines.len(),
{
    if lines.len() > 0 {
        lemma_final_state_stays(state, lines.drop_first());
    }
}

/// Reading one run of lines and then another is reading them all.
pub proof fn lemma_state_after_concat(
    state: PromptStateView,
    first: Seq<Seq<char>>,
    second: Seq<Seq<char>>,
)
    ensures
        state_after(state, first + second) == state_after(state_after(state, first), second),
    decreases first.len(),
{
    if first.len() == 0 {
        assert(first + second == second);
    } else {
        assert((first + second).first() == first.first());
        assert((first + second).drop_first() == first.drop_first() + second);
        lemma_state_after_concat(next_state(state, first.first()), first.drop_first(), second);
    }
}

/// Five lines in a row that mean nothing end the dialogue without a choice,
/// and nothing read afterwards changes that.
pub proof fn lemma_five_failures_abort(lines: Seq<Seq<char>>)
    requires
        lines.len() >= MAX_ATTEMPTS,
        forall|i: int| 0 <= i < MAX_ATTEMPTS ==> parse_confirmation(#[trigger] lines[i]) is None,
    ensures
        state_after(PromptStateView::AwaitingInput, lines) == PromptStateView::Aborted,
{
    let start = PromptStateView::AwaitingInput;
    let head = lines.take(4);
    let rest = lines.skip(4);
    assert(lines == head + rest);
    assert forall|i: int| 0 <= i < head.len() implies parse_confirmation(
        #[trigger] head[i],
    ) is None by {
        assert(head[i] == lines[i]);
    }
    lemma_failures_are_counted(start, head);
    lemma_state_after_concat(start, head, rest);
    let mid = state_after(start, head);
    assert(rest.first() == lines[4]);
    assert(next_state(mid, rest.first()) == PromptStateView::Aborted);
    lemma_final_state_stays(PromptStateView::Aborted, rest.drop_first());
}

/// The first line that means something decides, provided that fewer than
/// five lines before it meant nothing.
pub proof fn lemma_first_valid_line_decides(lines: Seq<Seq<char>>, k: int)
    requires
        0 <= k < lines.len(),
        k < MAX_ATTEMPTS,
        forall|i: int| 0 <= i < k ==> parse_confirmation(#[trigger] lines[i]) is None,
        parse_confirmation(lines[k]) is Some,
    ensures
        state_after(PromptStateView::AwaitingInput, lines) == PromptStateView::Validated(
            parse_confirmation(lines[k])->0,
        ),
{
    let start = PromptStateView::AwaitingInput;
    let head = lines.take(k);
    let rest = lines.skip(k);
    assert(lines == head + rest);
    assert forall|i: int| 0 <= i < head.len() implies parse_confirmation(
        #[trigger] head[i],
    ) is None by {
        assert(head[i] == lines[i]);
    }
    lemma_failures_are_counted(start, head);
    lemma_state_after_concat(start, head, rest);
    let mid = state_after(start, head);
    assert(rest.first() == lines[k]);
    let done = PromptStateView::Validated(parse_confirmation(lines[k])->0);
    assert(next_state(mid, rest.first()) == done);
    lemma_final_state_stays(done, rest.drop_first());
}

} // verus!
