use daily_digest::date::ReportDate;
use daily_digest::report::ReportError;
use daily_digest::scheduler::scheduler_step;
use daily_digest::scheduler::SchedulerEvent;
use daily_digest::scheduler::SchedulerState;

fn wake_date() -> ReportDate {
    ReportDate { year: 2024, month: 5, day: 6 }
}

fn completed_count(state: &SchedulerState) -> u64 {
    match state {
        SchedulerState::Waiting { completed } => *completed,
        SchedulerState::Running { completed, .. } => *completed,
        SchedulerState::Publishing { completed, .. } => *completed,
    }
}

#[test]
fn failing_generator_never_stops_the_loop() {
    let cycles = 25u64;
    let mut state = SchedulerState::Waiting { completed: 0 };
    for _ in 0..cycles {
        state = scheduler_step(state, SchedulerEvent::Woke { today: wake_date() });
        assert!(matches!(state, SchedulerState::Running { .. }));
        state = scheduler_step(
            state,
            SchedulerEvent::ReportFinished { outcome: Err(ReportError::NoMessages) },
        );
        assert!(matches!(state, SchedulerState::Waiting { .. }));
    }
    assert_eq!(completed_count(&state), cycles);
}

#[test]
fn wake_runs_report_for_the_previous_day() {
    let state = SchedulerState::Waiting { completed: 0 };
    let state = scheduler_step(state, SchedulerEvent::Woke { today: wake_date() });
    match state {
        SchedulerState::Running { completed, date } => {
            assert_eq!(completed, 0);
            assert_eq!(date, ReportDate { year: 2024, month: 5, day: 5 });
        }
        _ => panic!("expected a running cycle"),
    }
}

#[test]
fn successful_report_is_published_then_loop_waits() {
    let state = SchedulerState::Waiting { completed: 0 };
    let state = scheduler_step(state, SchedulerEvent::Woke { today: wake_date() });
    let state = scheduler_step(
        state,
        SchedulerEvent::ReportFinished { outcome: Ok("the digest".to_string()) },
    );
    match &state {
        SchedulerState::Publishing { completed, text } => {
            assert_eq!(*completed, 0);
            assert_eq!(text, "the digest");
        }
        _ => panic!("expected a pending publish"),
    }
    let state = scheduler_step(state, SchedulerEvent::PublishFinished { delivered: true });
    assert!(matches!(state, SchedulerState::Waiting { completed: 1 }));
}

#[test]
fn failed_publish_is_swallowed() {
    let state = SchedulerState::Publishing { completed: 7, text: "digest".to_string() };
    let state = scheduler_step(state, SchedulerEvent::PublishFinished { delivered: false });
    assert!(matches!(state, SchedulerState::Waiting { completed: 8 }));
}

#[test]
fn unusable_wake_date_counts_as_failed_cycle() {
    let state = SchedulerState::Waiting { completed: 4 };
    let bad = ReportDate { year: 2024, month: 13, day: 1 };
    let state = scheduler_step(state, SchedulerEvent::Woke { today: bad });
    assert!(matches!(state, SchedulerState::Waiting { completed: 5 }));

    let state = SchedulerState::Waiting { completed: 4 };
    let earliest = ReportDate { year: 1, month: 1, day: 1 };
    let state = scheduler_step(state, SchedulerEvent::Woke { today: earliest });
    assert!(matches!(state, SchedulerState::Waiting { completed: 5 }));
}

#[test]
fn mismatched_event_changes_nothing() {
    let state = SchedulerState::Waiting { completed: 3 };
    let state = scheduler_step(state, SchedulerEvent::PublishFinished { delivered: true });
    assert!(matches!(state, SchedulerState::Waiting { completed: 3 }));
}

#[test]
fn cycle_counter_saturates() {
    let state = SchedulerState::Waiting { completed: u64::MAX };
    let earliest = ReportDate { year: 1, month: 1, day: 1 };
    let state = scheduler_step(state, SchedulerEvent::Woke { today: earliest });
    assert!(matches!(state, SchedulerState::Waiting { completed: u64::MAX }));
}
