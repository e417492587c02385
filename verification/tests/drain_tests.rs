use slimevr_reset::drain::{drain_step, run_drain, DrainStep, ReadEvent};

#[test]
fn drain_step_decisions() {
    assert_eq!(
        drain_step(&ReadEvent::Text(String::from("status"))),
        DrainStep::LogAndContinue
    );
    assert_eq!(drain_step(&ReadEvent::Text(String::new())), DrainStep::Done);
    assert_eq!(drain_step(&ReadEvent::NonText), DrainStep::Done);
    assert_eq!(drain_step(&ReadEvent::Failed), DrainStep::Done);
}

#[test]
fn one_text_frame_then_close_logs_once() {
    let events = vec![
        ReadEvent::Text(String::from("tracker reset in progress")),
        ReadEvent::NonText,
    ];
    let r = run_drain(&events);
    assert_eq!(r.logged, vec![String::from("tracker reset in progress")]);
    assert_eq!(r.frames_read, 2);
    assert!(r.terminated);
}

#[test]
fn immediate_close_ends_on_first_read() {
    let events = vec![ReadEvent::NonText];
    let r = run_drain(&events);
    assert!(r.logged.is_empty());
    assert_eq!(r.frames_read, 1);
    assert!(r.terminated);
}

#[test]
fn empty_text_ends_drain() {
    let events = vec![ReadEvent::Text(String::new()), ReadEvent::Text(String::from("late"))];
    let r = run_drain(&events);
    assert!(r.logged.is_empty());
    assert_eq!(r.frames_read, 1);
    assert!(r.terminated);
}

#[test]
fn read_failure_ends_drain() {
    let events = vec![ReadEvent::Text(String::from("a")), ReadEvent::Failed];
    let r = run_drain(&events);
    assert_eq!(r.logged, vec![String::from("a")]);
    assert_eq!(r.frames_read, 2);
    assert!(r.terminated);
}

#[test]
fn several_texts_are_all_logged_in_order() {
    let events = vec![
        ReadEvent::Text(String::from("one")),
        ReadEvent::Text(String::from("two")),
        ReadEvent::Text(String::from("three")),
        ReadEvent::NonText,
    ];
    let r = run_drain(&events);
    assert_eq!(
        r.logged,
        vec![String::from("one"), String::from("two"), String::from("three")]
    );
    assert_eq!(r.frames_read, 4);
    assert!(r.terminated);
}

#[test]
fn record_without_terminator_runs_out() {
    let events = vec![ReadEvent::Text(String::from("only"))];
    let r = run_drain(&events);
    assert_eq!(r.logged, vec![String::from("only")]);
    assert_eq!(r.frames_read, 1);
    assert!(!r.terminated);
}

#[test]
fn empty_record() {
    let events: Vec<ReadEvent> = vec![];
    let r = run_drain(&events);
    assert!(r.logged.is_empty());
    assert_eq!(r.frames_read, 0);
    assert!(!r.terminated);
}
