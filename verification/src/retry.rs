//! The retry rule for requests against the host. A request is tried up to
//! five times. Only a failure of the transport counts as a failure: an
//! answer with an error status is an answer. Between two tries lies a fixed
//! pause. The caller sends the request and sleeps; what to do after each try
//! is decided here.

use vstd::prelude::*;

verus! {

/// Times that one request is tried, the first try included.
pub const MAX_TRIES: u32 = 5;

/// Pause between two tries, in milliseconds. It neither grows nor varies.
pub const RETRY_DELAY_MS: u64 = 300;

/// Time that one try may take where nothing else is configured, in
/// milliseconds.
pub const ATTEMPT_TIMEOUT_MS: u64 = 30_000;

/// What to do after a try.
#[derive(Debug)]
pub enum RetryStep<R, E> {
    /// Stop. The host answered, or the tries are used up and the error of
    /// the last one is handed on.
    Finished(Result<R, E>),
    /// Pause for `delay_ms` milliseconds, then try again. `failures` tries
    /// have failed so far.
    Wait { delay_ms: u64, failures: u32 },
}

/// The step after a try that ended in `outcome`, where `failures` tries had
/// failed before it.
pub open spec fn step_after<R, E>(failures: nat, outcome: Result<R, E>) -> RetryStep<R, E> {
    match outcome {
        Ok(_) => RetryStep::Finished(outcome),
        Err(_) => if failures + 1 >= MAX_TRIES {
            RetryStep::Finished(outcome)
        } else {
            RetryStep::Wait { delay_ms: RETRY_DELAY_MS, failures: (failures + 1) as u32 }
        },
    }
}

/// Decides what follows a try.
pub fn after_attempt<R, E>(failures: u32, outcome: Result<R, E>) -> (step: RetryStep<R, E>)
    ensures
        step == step_after(failures as nat, outcome),
{
    match outcome {
        Ok(answer) => RetryStep::Finished(Ok(answer)),
        Err(error) => if failures >= MAX_TRIES - 1 {
            RetryStep::Finished(Err(error))
        } else {
            RetryStep::Wait { delay_ms: RETRY_DELAY_MS, failures: failures + 1 }
        },
    }
}

/// How a request ends when its tries end in `outcomes`, in this order, after
/// `failures` failed tries: the result that is handed on, or `None` while
/// the outcomes given do not yet decide it.
pub open spec fn result_of<R, E>(failures: nat, outcomes: Seq<Result<R, E>>) -> Option<
    Result<R, E>,
>
    decreases outcomes.len(),
{
    if outcomes.len() == 0 {
        None
    } else {
        match step_after(failures, outcomes.first()) {
            RetryStep::Finished(result) => Some(result),
            RetryStep::Wait { failures: counted, .. } => result_of(
                counted as nat,
                outcomes.drop_first(),
            ),
        }
    }
}

/// The number of pauses made while the tries end in `outcomes`.
pub open spec fn pauses_of<R, E>(failures: nat, outcomes: Seq<Result<R, E>>) -> nat
    decreases outcomes.len(),
{
    if outcomes.len() == 0 {
        0
    } else {
        match step_after(failures, outcomes.first()) {
            RetryStep::Finished(_) => 0,
            RetryStep::Wait { failures: counted, .. } => 1 + pauses_of(
                counted as nat,
                outcomes.drop_first(),
            ),
        }
    }
}

/// Where try `k` is the first that gets an answer and fewer than five tries
/// failed before it, that answer is the result, after `k` pauses. Whatever
/// would have come after it plays no part.
pub proof fn lemma_first_answer_is_returned<R, E>(
    failures: nat,
    outcomes: Seq<Result<R, E>>,
    k: int,
)
    requires
        0 <= k < outcomes.len(),
        failures + k < MAX_TRIES,
        forall|i: int| 0 <= i < k ==> (#[trigger] outcomes[i]) is Err,
        outcomes[k] is Ok,
    ensures
        result_of(failures, outcomes) == Some(outcomes[k]),
        pauses_of(failures, outcomes) == k,
    decreases k,
{
    if k > 0 {
        let rest = outcomes.drop_first();
        assert(outcomes[0] is Err);
        assert forall|i: int| 0 <= i < k - 1 implies (#[trigger] rest[i]) is Err by {
            assert(rest[i] == outcomes[i + 1]);
        }
        assert(rest[k - 1] == outcomes[k]);
        lemma_first_answer_is_returned(failures + 1, rest, k - 1);
    }
}

/// Where every try fails, the request ends with the error of the try that
/// uses up the allowance: the fifth in all. No sixth try is made.
pub proof fn lemma_exhausted_tries_fail<R, E>(failures: nat, outcomes: Seq<Result<R, E>>)
    requires
        failures < MAX_TRIES,
        outcomes.len() >= MAX_TRIES - failures,
        forall|i: int| 0 <= i < MAX_TRIES - failures ==> (#[trigger] outcomes[i]) is Err,
    ensures
        result_of(failures, outcomes) == Some(outcomes[MAX_TRIES - failures - 1]),
        pauses_of(failures, outcomes) == MAX_TRIES - failures - 1,
    decreases MAX_TRIES - failures,
{
    assert(outcomes[0] is Err);
    if failures + 1 < MAX_TRIES {
        let rest = outcomes.drop_first();
        assert forall|i: int| 0 <= i < MAX_TRIES - failures - 1 implies (#[trigger] rest[i]) is Err by {
            assert(rest[i] == outcomes[i + 1]);
        }
        assert(rest[MAX_TRIES - failures - 2] == outcomes[MAX_TRIES - failures - 1]);
        lemma_exhausted_tries_fail(failures + 1, rest);
    }
}

/// However the tries end, a request that starts afresh pauses at most four
/// times: it is over after five tries.
pub proof fn lemma_pauses_are_bounded<R, E>(failures: nat, outcomes: Seq<Result<R, E>>)
    requires
        failures < MAX_TRIES,
    ensures
        pauses_of(failures, outcomes) <= MAX_TRIES - 1 - failures,
        result_of(failures, outcomes) is None ==> pauses_of(failures, outcomes) == outcomes.len(),
    decreases outcomes.len(),
{
    if outcomes.len() > 0 {
        match step_after(failures, outcomes.first()) {
            RetryStep::Finished(_) => {},
            RetryStep::Wait { failures: counted, .. } => {
                lemma_pauses_are_bounded(counted as nat, outcomes.drop_first());
            },
        }
    }
}

} // verus!
