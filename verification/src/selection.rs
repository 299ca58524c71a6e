//! Turns what the operator types into the set of candidates to approve: the
//! reading of one line, the bounded dialogue around it, and the translation
//! of the chosen positions onto the presented list.

use vstd::prelude::*;
use vstd::string::*;
use crate::model::{Notice, NoticeView};
use crate::text::{
    chars_of, decimal, decimal_string, lemma_decimal_reads_back, parse_index,
    parse_index_range, split_on, trim_range, trimmed,
};

verus! {

/// What the operator chose.
#[derive(Debug, Clone, PartialEq, Eq)]
pub enum Confirmation {
    /// Every candidate.
    All,
    /// The candidates at these positions, counted from 1, in the order typed.
    /// The positions are not held against the length of the list here.
    Select(Vec<usize>),
}

/// What a [`Confirmation`] holds.
pub enum ConfirmationView {
    All,
    Select(Seq<usize>),
}

impl View for Confirmation {
    type V = ConfirmationView;

    open spec fn view(&self) -> ConfirmationView {
        match self {
            Confirmation::All => ConfirmationView::All,
            Confirmation::Select(positions) => ConfirmationView::Select(positions@),
        }
    }
}

/// The word that chooses every candidate.
pub open spec fn all_keyword() -> Seq<char> {
    seq!['a', 'l', 'l']
}

/// Tells whether a piece of the input writes a position once the white space
/// around it is gone.
pub open spec fn token_parses(token: Seq<char>) -> bool {
    parse_index(trimmed(token)) is Some
}

/// The position that a piece of the input writes.
pub open spec fn token_position(token: Seq<char>) -> usize {
    parse_index(trimmed(token))->0
}

/// Tells whether every piece writes a position.
pub open spec fn all_parse(tokens: Seq<Seq<char>>) -> bool {
    forall|i: int| 0 <= i < tokens.len() ==> token_parses(#[trigger] tokens[i])
}

/// The positions that the pieces write, in order.
pub open spec fn positions_of(tokens: Seq<Seq<char>>) -> Seq<usize> {
    Seq::new(tokens.len(), |i: int| token_position(tokens[i]))
}

/// The meaning of one line of input. The line `all`, with any white space
/// around it, chooses everything. Any other line is cut at its commas, and
/// chooses the positions that its pieces write if every piece writes one.
/// A line that does neither means nothing.
pub open spec fn parse_confirmation(line: Seq<char>) -> Option<ConfirmationView> {
    if trimmed(line) == all_keyword() {
        Some(ConfirmationView::All)
    } else {
        let tokens = split_on(line, ',');
        if all_parse(tokens) {
            Some(ConfirmationView::Select(positions_of(tokens)))
        } else {
            None
        }
    }
}

fn is_all_keyword(v: &Vec<char>, start: usize, end: usize) -> (b: bool)
    requires
        start <= end <= v.len(),
    ensures
        b == (v@.subrange(start as int, end as int) == all_keyword()),
{
    let ghost piece = v@.subrange(start as int, end as int);
    assert(all_keyword().len() == 3);
    if end - start != 3 {
        return false;
    }
    let b = v[start] == 'a' && v[start + 1] == 'l' && v[start + 2] == 'l';
    proof {
        assert(piece[0] == v@[start as int]);
        assert(piece[1] == v@[start + 1]);
        assert(piece[2] == v@[start + 2]);
        if b {
            assert(piece =~= all_keyword());
        }
    }
    b
}

fn parse_token(v: &Vec<char>, start: usize, end: usize) -> (r: Option<usize>)
    requires
        start <= end <= v.len(),
    ensures
        r == parse_index(trimmed(v@.subrange(start as int, end as int))),
{
    let (lo, hi) = trim_range(v, start, end);
    parse_index_range(v, lo, hi)
}

/// One more piece parses with the others exactly if the others parse and it
/// parses, and then its position comes last.
proof fn lemma_one_more_piece(done: Seq<Seq<char>>, piece: Seq<char>)
    ensures
        all_parse(done.push(piece)) <==> all_parse(done) && token_parses(piece),
        positions_of(done.push(piece)) == positions_of(done).push(token_position(piece)),
{
    let grown = done.push(piece);
    if all_parse(done) && token_parses(piece) {
        assert forall|k: int| 0 <= k < grown.len() implies token_parses(#[trigger] grown[k]) by {
            if k < done.len() {
                assert(grown[k] == done[k]);
            }
        }
    }
    if all_parse(grown) {
        assert(token_parses(grown[done.len() as int]));
        assert forall|k: int| 0 <= k < done.len() implies token_parses(#[trigger] done[k]) by {
            assert(grown[k] == done[k]);
        }
    }
    assert(positions_of(grown) =~= positions_of(done).push(token_position(piece)));
}

/// Reads one line of operator input.
pub fn translate_stdin(s: &str) -> (r: Option<Confirmation>)
    ensures
        match r {
            Some(c) => parse_confirmation(s@) == Some(c@),
            None => parse_confirmation(s@) is None,
        },
{
    let chars = chars_of(s);
    let n = chars.len();
    assert(chars@.subrange(0, n as int) == chars@);
    let (lo, hi) = trim_range(&chars, 0, n);
    if is_all_keyword(&chars, lo, hi) {
        return Some(Confirmation::All);
    }
    // `done` holds the pieces that are closed by a comma so far. The piece
    // that is still open runs from `start` to `i`.
    let ghost mut done: Seq<Seq<char>> = Seq::empty();
    let mut positions: Vec<usize> = Vec::new();
    let mut ok = true;
    let mut start: usize = 0;
    let mut i: usize = 0;
    assert(chars@.take(0) == Seq::<char>::empty());
    assert(split_on(chars@.take(0), ',') == done.push(chars@.subrange(0, 0)));
    assert(positions@ == positions_of(done));
    while i < n
        invariant
            n == chars.len(),
            start <= i <= n,
            split_on(chars@.take(i as int), ',') == done.push(
                chars@.subrange(start as int, i as int),
            ),
            ok <==> all_parse(done),
            ok ==> positions@ == positions_of(done),
        decreases n - i,
    {
        let ghost piece = chars@.subrange(start as int, i as int);
        proof {
            let next = chars@.take(i + 1);
            assert(next.drop_last() == chars@.take(i as int));
            assert(next.last() == chars@[i as int]);
            assert(done.push(piece).drop_last() == done);
        }
        if chars[i] == ',' {
            let parsed = parse_token(&chars, start, i);
            proof {
                lemma_one_more_piece(done, piece);
                done = done.push(piece);
                assert(chars@.subrange(i + 1, i + 1) == Seq::<char>::empty());
            }
            match parsed {
                Some(position) => {
                    if ok {
                        positions.push(position);
                    }
                },
                None => {
                    ok = false;
                },
            }
            start = i + 1;
        } else {
            assert(piece.push(chars@[i as int]) == chars@.subrange(start as int, i + 1));
        }
        i = i + 1;
    }
    let ghost piece = chars@.subrange(start as int, n as int);
    proof {
        assert(chars@.take(n as int) == chars@);
        lemma_one_more_piece(done, piece);
    }
    match parse_token(&chars, start, n) {
        Some(position) => {
            if ok {
                positions.push(position);
                Some(Confirmation::Select(positions))
            } else {
                None
            }
        },
        None => None,
    }
}

/// What to do for one entry of a selection.
#[derive(Debug, Clone, Copy, PartialEq, Eq)]
pub enum SelectionStep {
    /// Submit the candidate at this index of the list, counted from 0.
    Submit(usize),
    /// No candidate stands at this position, as the operator typed it.
    Skip(usize),
}

/// The step for one typed position against a list of `candidates` entries.
/// Positions count from 1: position `p` names index `p - 1`. Position 0
/// and every position beyond the list name nothing.
pub open spec fn step_for(position: usize, candidates: nat) -> SelectionStep {
    if 1 <= position <= candidates {
        SelectionStep::Submit((position - 1) as usize)
    } else {
        SelectionStep::Skip(position)
    }
}

/// The steps that a choice asks for, in order: every index in presentation
/// order for `All`, one step for each typed position otherwise.
pub open spec fn selection_plan(choice: ConfirmationView, candidates: nat) -> Seq<SelectionStep> {
    match choice {
        ConfirmationView::All => Seq::new(candidates, |i: int| SelectionStep::Submit(i as usize)),
        ConfirmationView::Select(positions) => Seq::new(
            positions.len(),
            |i: int| step_for(positions[i], candidates),
        ),
    }
}

/// Translates one typed position onto a list of `candidates` entries.
pub fn resolve_position(position: usize, candidates: usize) -> (step: SelectionStep)
    ensures
        step == step_for(position, candidates as nat),
{
    let index = position.saturating_sub(1);
    if position != 0 && index < candidates {
        SelectionStep::Submit(index)
    } else {
        SelectionStep::Skip(position)
    }
}

/// Lays out what to do for a choice against a list of `candidates` entries.
/// Every index that it submits lies within the list.
pub fn plan_selection(choice: &Confirmation, candidates: usize) -> (plan: Vec<SelectionStep>)
    ensures
        plan@ == selection_plan(choice@, candidates as nat),
        forall|k: int|
            0 <= k < plan.len() ==> (#[trigger] plan[k] matches SelectionStep::Submit(i) ==> i
                < candidates),
{
    let mut plan: Vec<SelectionStep> = Vec::new();
    match choice {
        Confirmation::All => {
            let mut i: usize = 0;
            while i < candidates
                invariant
                    i <= candidates,
                    plan@ == Seq::new(i as nat, |k: int| SelectionStep::Submit(k as usize)),
                decreases candidates - i,
            {
                plan.push(SelectionStep::Submit(i));
                i = i + 1;
                assert(plan@ =~= Seq::new(i as nat, |k: int| SelectionStep::Submit(k as usize)));
            }
        },
        Confirmation::Select(positions) => {
            let mut i: usize = 0;
            while i < positions.len()
                invariant
                    i <= positions.len(),
                    plan@ == Seq::new(
                        i as nat,
                        |k: int| step_for(positions@[k], candidates as nat),
                    ),
                decreases positions.len() - i,
            {
                plan.push(resolve_position(positions[i], candidates));
                i = i + 1;
                assert(plan@ =~= Seq::new(
                    i as nat,
                    |k: int| step_for(positions@[k], candidates as nat),
                ));
            }
        },
    }
    plan
}

/// The number that the list shows beside a candidate, typed back, reads as
/// that position and selects that candidate.
pub proof fn lemma_shown_position_selects(index: nat, candidates: nat)
    requires
        index < candidates <= usize::MAX,
    ensures
        parse_index(decimal(index + 1)) == Some((index + 1) as usize),
        step_for((index + 1) as usize, candidates) == SelectionStep::Submit(index as usize),
{
    lemma_decimal_reads_back(index + 1);
}

/// What the operator is told of a position that names no candidate.
pub open spec fn skipped_text(position: nat) -> Seq<char> {
    "Invalid option selected, skipping: "@ + decimal(position)
}

/// The notice for a step: a skipped position is reported, unless the run
/// is quiet, and a submission says nothing here.
pub open spec fn step_notice_of(step: SelectionStep, quiet: bool) -> Option<NoticeView> {
    match step {
        SelectionStep::Skip(position) if !quiet => Some(
            NoticeView { text: skipped_text(position as nat), to_error_stream: false },
        ),
        _ => None,
    }
}

/// Writes the notice for a step. A skipped position is never an error: the
/// steps after it are still carried out.
pub fn step_notice(step: SelectionStep, quiet: bool) -> (notice: Option<Notice>)
    ensures
        match notice {
            Some(n) => step_notice_of(step, quiet) == Some(n@),
            None => step_notice_of(step, quiet) is None,
        },
{
    match step {
        SelectionStep::Skip(position) => {
            if quiet {
                None
            } else {
                let mut text = "Invalid option selected, skipping: ".to_owned();
                let digits = decimal_string(position as u64);
                text.append(digits.as_str());
                Some(Notice { text, to_error_stream: false })
            }
        },
        SelectionStep::Submit(_) => None,
    }
}

} // verus!
