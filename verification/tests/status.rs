use dependabot_approve::model::StatusEvent;
use dependabot_approve::status::{event_qualifies, latest_index, latest_status};

fn status_event(created_at: i128, reporter: &str, state: &str) -> StatusEvent {
    StatusEvent { created_at, reporter: reporter.to_string(), state: state.to_string() }
}

#[test]
fn latest_status_is_the_one_with_the_greatest_time() {
    let events = vec![
        status_event(10, "ci", "pending"),
        status_event(30, "ci", "success"),
        status_event(20, "ci", "failure"),
    ];
    assert_eq!(latest_status(&events, &None), Some("success".to_string()));
    assert_eq!(latest_index(&events, &None), Some(1));
}

#[test]
fn latest_status_of_no_events_is_none() {
    assert_eq!(latest_status(&Vec::new(), &None), None);
    assert_eq!(latest_status(&Vec::new(), &Some("ci".to_string())), None);
    assert_eq!(latest_index(&Vec::new(), &None), None);
}

#[test]
fn first_event_wins_among_equal_times() {
    let events = vec![
        status_event(5, "ci", "early"),
        status_event(40, "ci", "first"),
        status_event(40, "ci", "second"),
        status_event(40, "other", "third"),
    ];
    assert_eq!(latest_status(&events, &None), Some("first".to_string()));
    assert_eq!(latest_index(&events, &None), Some(1));
    assert_eq!(latest_index(&events, &Some("other".to_string())), Some(3));
}

#[test]
fn events_of_other_reporters_are_left_out_before_the_reduction() {
    let events = vec![
        status_event(10, "ci", "pending"),
        status_event(99, "someone-else", "failure"),
        status_event(20, "ci", "success"),
    ];
    assert_eq!(latest_status(&events, &Some("ci".to_string())), Some("success".to_string()));
    assert_eq!(latest_status(&events, &None), Some("failure".to_string()));
}

#[test]
fn no_event_of_the_reporter_gives_none() {
    let events = vec![status_event(10, "ci", "pending"), status_event(20, "ci", "success")];
    assert_eq!(latest_status(&events, &Some("nobody".to_string())), None);
    assert_eq!(latest_status(&events, &Some("CI".to_string())), None);
}

#[test]
fn times_before_the_epoch_are_ordered_like_any_other() {
    let events = vec![status_event(-50, "ci", "old"), status_event(-10, "ci", "less old")];
    assert_eq!(latest_status(&events, &None), Some("less old".to_string()));
    let single = vec![status_event(0, "ci", "at the epoch")];
    assert_eq!(latest_status(&single, &None), Some("at the epoch".to_string()));
}

#[test]
fn an_event_qualifies_by_its_reporter() {
    let event = status_event(1, "ci", "success");
    assert!(event_qualifies(&event, &None));
    assert!(event_qualifies(&event, &Some("ci".to_string())));
    assert!(!event_qualifies(&event, &Some("ci2".to_string())));
}

#[test]
fn latest_status_scans_long_lists() {
    let mut events = Vec::new();
    for i in 0..1000i128 {
        events.push(status_event((i * 7919) % 1009, "ci", &format!("s{}", i)));
    }
    let best = events.iter().map(|e| e.created_at).max().unwrap();
    let first = events.iter().position(|e| e.created_at == best).unwrap();
    assert_eq!(latest_index(&events, &None), Some(first));
    assert_eq!(latest_status(&events, &None), Some(events[first].state.clone()));
}
