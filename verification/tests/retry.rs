use dependabot_approve::retry::{after_attempt, RetryStep, MAX_TRIES, RETRY_DELAY_MS};

/// Runs one request against a transport that plays back `outcomes`, and
/// returns the result with the number of tries and the pauses made.
fn run_request(outcomes: Vec<Result<u16, String>>) -> (Result<u16, String>, usize, Vec<u64>) {
    let mut transport = outcomes.into_iter();
    let mut failures = 0;
    let mut tries = 0;
    let mut pauses = Vec::new();
    loop {
        let outcome = transport.next().expect("the transport was asked once too often");
        tries += 1;
        match after_attempt(failures, outcome) {
            RetryStep::Finished(result) => return (result, tries, pauses),
            RetryStep::Wait { delay_ms, failures: counted } => {
                pauses.push(delay_ms);
                failures = counted;
            }
        }
    }
}

fn refused(n: usize) -> Result<u16, String> {
    Err(format!("connection refused ({})", n))
}

#[test]
fn four_failures_then_an_answer_give_the_answer() {
    let (result, tries, pauses) =
        run_request(vec![refused(1), refused(2), refused(3), refused(4), Ok(200)]);
    assert_eq!(result, Ok(200));
    assert_eq!(tries, 5);
    assert_eq!(pauses, vec![300, 300, 300, 300]);
}

#[test]
fn five_failures_give_the_last_transport_error() {
    let (result, tries, pauses) =
        run_request(vec![refused(1), refused(2), refused(3), refused(4), refused(5), Ok(200)]);
    assert_eq!(result, Err("connection refused (5)".to_string()));
    assert_eq!(tries, 5);
    assert_eq!(pauses, vec![300, 300, 300, 300]);
}

#[test]
fn an_answer_at_once_needs_no_pause() {
    let (result, tries, pauses) = run_request(vec![Ok(200)]);
    assert_eq!(result, Ok(200));
    assert_eq!(tries, 1);
    assert_eq!(pauses, Vec::<u64>::new());
}

#[test]
fn an_error_status_is_an_answer_and_is_not_retried() {
    let (result, tries, pauses) = run_request(vec![Ok(500), Ok(200)]);
    assert_eq!(result, Ok(500));
    assert_eq!(tries, 1);
    assert!(pauses.is_empty());
    let (result, tries, _) = run_request(vec![refused(1), Ok(404)]);
    assert_eq!(result, Ok(404));
    assert_eq!(tries, 2);
}

#[test]
fn each_step_follows_the_count_of_failures() {
    for failures in 0..4u32 {
        match after_attempt::<u16, String>(failures, refused(0)) {
            RetryStep::Wait { delay_ms, failures: counted } => {
                assert_eq!(delay_ms, 300);
                assert_eq!(counted, failures + 1);
            }
            RetryStep::Finished(_) => panic!("gave up after {} failures", failures + 1),
        }
    }
    for failures in [4u32, 5, 100, u32::MAX] {
        match after_attempt::<u16, String>(failures, refused(9)) {
            RetryStep::Finished(Err(error)) => assert_eq!(error, "connection refused (9)"),
            _ => panic!("went on after {} failures", failures),
        }
        match after_attempt::<u16, String>(failures, Ok(201)) {
            RetryStep::Finished(Ok(status)) => assert_eq!(status, 201),
            _ => panic!("lost an answer"),
        }
    }
}

#[test]
fn the_retry_rule_has_fixed_numbers() {
    assert_eq!(MAX_TRIES, 5);
    assert_eq!(RETRY_DELAY_MS, 300);
}
