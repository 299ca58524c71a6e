use dependabot_approve::outcome::{RunError, EXIT_USAGE};
use dependabot_approve::prompt::{
    advance, exit_status, failure, notice_for, PromptState, MAX_ATTEMPTS,
};
use dependabot_approve::selection::{
    plan_selection, resolve_position, step_notice, translate_stdin, Confirmation, SelectionStep,
};

#[test]
fn all_selects_every_candidate() {
    let choice = translate_stdin("all").unwrap();
    assert_eq!(choice, Confirmation::All);
    assert_eq!(
        plan_selection(&choice, 3),
        vec![SelectionStep::Submit(0), SelectionStep::Submit(1), SelectionStep::Submit(2)]
    );
}

#[test]
fn all_is_trimmed_and_case_sensitive() {
    assert_eq!(translate_stdin("  all \n"), Some(Confirmation::All));
    assert_eq!(translate_stdin("All"), None);
    assert_eq!(translate_stdin("ALL\n"), None);
    assert_eq!(translate_stdin("all,1"), None);
    assert_eq!(translate_stdin("a l l"), None);
}

#[test]
fn one_and_three_select_the_first_and_the_third() {
    let choice = translate_stdin("1,3").unwrap();
    assert_eq!(choice, Confirmation::Select(vec![1, 3]));
    assert_eq!(
        plan_selection(&choice, 3),
        vec![SelectionStep::Submit(0), SelectionStep::Submit(2)]
    );
}

#[test]
fn zero_and_ninety_nine_are_both_skipped() {
    let choice = translate_stdin("0,99\n").unwrap();
    assert_eq!(choice, Confirmation::Select(vec![0, 99]));
    let plan = plan_selection(&choice, 3);
    assert_eq!(plan, vec![SelectionStep::Skip(0), SelectionStep::Skip(99)]);
    let notices: Vec<String> =
        plan.iter().filter_map(|step| step_notice(*step, false)).map(|n| n.text).collect();
    assert_eq!(
        notices,
        vec![
            "Invalid option selected, skipping: 0".to_string(),
            "Invalid option selected, skipping: 99".to_string(),
        ]
    );
    assert!(plan.iter().all(|step| step_notice(*step, true).is_none()));
}

#[test]
fn skipped_positions_do_not_stop_the_rest() {
    let choice = translate_stdin("7, 2,0 ,1").unwrap();
    assert_eq!(
        plan_selection(&choice, 2),
        vec![
            SelectionStep::Skip(7),
            SelectionStep::Submit(1),
            SelectionStep::Skip(0),
            SelectionStep::Submit(0),
        ]
    );
}

#[test]
fn positions_keep_their_order_and_repeats() {
    assert_eq!(translate_stdin("3,1,3"), Some(Confirmation::Select(vec![3, 1, 3])));
    assert_eq!(translate_stdin(" 2 ,\t+4 \n"), Some(Confirmation::Select(vec![2, 4])));
    assert_eq!(translate_stdin("5"), Some(Confirmation::Select(vec![5])));
}

#[test]
fn lines_that_mean_nothing_are_refused() {
    assert_eq!(translate_stdin("abc"), None);
    assert_eq!(translate_stdin(""), None);
    assert_eq!(translate_stdin("\n"), None);
    assert_eq!(translate_stdin("1,,2"), None);
    assert_eq!(translate_stdin("1,2,"), None);
    assert_eq!(translate_stdin(",1"), None);
    assert_eq!(translate_stdin("1;2"), None);
    assert_eq!(translate_stdin("-1"), None);
    assert_eq!(translate_stdin("1 2"), None);
    assert_eq!(translate_stdin("1,x"), None);
    assert_eq!(translate_stdin("99999999999999999999999999"), None);
}

#[test]
fn translate_stdin_agrees_with_splitting_by_the_standard_library() {
    let samples = [
        "1", "1,2", " 1 , 2 ", "1,,2", ",", "", "a", "1,a", "+1,+2", "0", "00,01", "1\n", "1,2\r\n",
        "\u{a0}3\u{a0},4", "18446744073709551615", "18446744073709551616,1",
    ];
    for s in samples {
        let expected = s
            .split(',')
            .map(|t| t.trim().parse::<usize>())
            .collect::<Result<Vec<usize>, std::num::ParseIntError>>()
            .ok()
            .map(Confirmation::Select);
        assert_eq!(translate_stdin(s), expected, "sample {:?}", s);
    }
}

#[test]
fn positions_count_from_one() {
    assert_eq!(resolve_position(1, 3), SelectionStep::Submit(0));
    assert_eq!(resolve_position(3, 3), SelectionStep::Submit(2));
    assert_eq!(resolve_position(4, 3), SelectionStep::Skip(4));
    assert_eq!(resolve_position(0, 3), SelectionStep::Skip(0));
    assert_eq!(resolve_position(0, 0), SelectionStep::Skip(0));
    assert_eq!(resolve_position(1, 0), SelectionStep::Skip(1));
    assert_eq!(resolve_position(usize::MAX, usize::MAX), SelectionStep::Submit(usize::MAX - 1));
}

#[test]
fn an_empty_list_leaves_nothing_to_submit() {
    assert_eq!(plan_selection(&Confirmation::All, 0), Vec::new());
    assert_eq!(
        plan_selection(&Confirmation::Select(vec![1]), 0),
        vec![SelectionStep::Skip(1)]
    );
    assert_eq!(plan_selection(&Confirmation::Select(Vec::new()), 5), Vec::new());
}

#[test]
fn five_unreadable_lines_end_the_dialogue_with_status_67() {
    let mut state = PromptState::AwaitingInput;
    assert_eq!(exit_status(&state), None);
    for attempt in 1..=4u8 {
        state = advance(state, "abc");
        assert_eq!(state, PromptState::Retrying { failures: attempt });
        assert_eq!(exit_status(&state), None);
        let notice = notice_for(&state).unwrap();
        assert_eq!(notice.text, "Unable to parse input, please try again");
        assert!(!notice.to_error_stream);
    }
    state = advance(state, "abc");
    assert_eq!(state, PromptState::Aborted);
    assert_eq!(exit_status(&state), Some(67));
    assert_eq!(failure(&state), Some(RunError::Parse));
    assert_eq!(EXIT_USAGE, 67);
    assert_eq!(MAX_ATTEMPTS, 5);
    let notice = notice_for(&state).unwrap();
    assert_eq!(notice.text, "Failed to parse input 5 times, exiting");
    assert!(notice.to_error_stream);
}

#[test]
fn the_fifth_line_may_still_be_understood() {
    let mut state = PromptState::AwaitingInput;
    for _ in 0..4 {
        state = advance(state, "what?");
    }
    state = advance(state, "2\n");
    assert_eq!(state, PromptState::Validated(Confirmation::Select(vec![2])));
    assert_eq!(notice_for(&state), None);
    assert_eq!(exit_status(&state), None);
    assert_eq!(failure(&state), None);
}

#[test]
fn the_first_line_may_be_understood() {
    let state = advance(PromptState::AwaitingInput, "all\n");
    assert_eq!(state, PromptState::Validated(Confirmation::All));
}

#[test]
fn a_finished_dialogue_stays_finished() {
    let done = advance(PromptState::Validated(Confirmation::All), "abc");
    assert_eq!(done, PromptState::Validated(Confirmation::All));
    let aborted = advance(PromptState::Aborted, "all");
    assert_eq!(aborted, PromptState::Aborted);
}

#[test]
fn a_count_beyond_the_allowance_aborts() {
    assert_eq!(advance(PromptState::Retrying { failures: 200 }, "abc"), PromptState::Aborted);
    assert_eq!(advance(PromptState::Retrying { failures: 255 }, "abc"), PromptState::Aborted);
    assert_eq!(
        advance(PromptState::Retrying { failures: 255 }, "1"),
        PromptState::Validated(Confirmation::Select(vec![1]))
    );
}

#[test]
fn the_dialogue_opens_with_its_request() {
    let notice = notice_for(&PromptState::AwaitingInput).unwrap();
    assert_eq!(
        notice.text,
        "Please enter which PRs you'd like to approve as a comma\nseparated list or 'all' for all entries"
    );
    assert!(!notice.to_error_stream);
}
