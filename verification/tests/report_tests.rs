use daily_digest::date::ReportDate;
use daily_digest::report::generate_report;
use daily_digest::report::generator_step;
use daily_digest::report::GeneratorEvent;
use daily_digest::report::GeneratorState;
use daily_digest::report::ReportError;
use daily_digest::report::SummarizerReply;
use daily_digest::store::ArchiveStore;

fn jan_first() -> ReportDate {
    ReportDate { year: 2024, month: 1, day: 1 }
}

fn jan_second() -> ReportDate {
    ReportDate { year: 2024, month: 1, day: 2 }
}

fn store_with_three_messages() -> ArchiveStore {
    let mut store = ArchiveStore::new();
    store.ingest("first message".to_string(), jan_first());
    store.ingest("second message".to_string(), jan_first());
    store.ingest("third message".to_string(), jan_first());
    store
}

#[test]
fn three_messages_yield_stored_summary() {
    let mut store = store_with_three_messages();
    let reply = SummarizerReply::Text("SUMMARY:3".to_string());
    let result = generate_report(&mut store, jan_first(), reply);
    assert_eq!(result.ok(), Some("SUMMARY:3".to_string()));
    assert!(store.has_summary(&"SUMMARY:3".to_string(), jan_first()));
    assert_eq!(store.summary_count_for(jan_first()), 1);
}

#[test]
fn missing_date_reports_no_messages_and_writes_nothing() {
    let mut store = store_with_three_messages();
    let reply = SummarizerReply::Text("unused".to_string());
    let result = generate_report(&mut store, jan_second(), reply);
    assert!(matches!(result, Err(ReportError::NoMessages)));
    assert_eq!(store.summary_count_for(jan_second()), 0);
    assert_eq!(store.summary_count_for(jan_first()), 0);
}

#[test]
fn empty_store_reports_no_messages() {
    let mut store = ArchiveStore::new();
    let reply = SummarizerReply::Text("unused".to_string());
    let result = generate_report(&mut store, jan_first(), reply);
    assert!(matches!(result, Err(ReportError::NoMessages)));
    assert_eq!(store.summary_count_for(jan_first()), 0);
}

#[test]
fn summarizer_failure_writes_nothing() {
    let mut store = store_with_three_messages();
    let reply = SummarizerReply::Failure("quota exhausted".to_string());
    let result = generate_report(&mut store, jan_first(), reply);
    match result {
        Err(ReportError::SummarizationError { detail }) => {
            assert_eq!(detail, "quota exhausted");
        }
        other => panic!("expected a summarization error, got {:?}", other.is_ok()),
    }
    assert_eq!(store.summary_count_for(jan_first()), 0);
}

#[test]
fn persist_failure_salvages_text_and_writes_nothing() {
    let mut store = store_with_three_messages();
    store.set_summary_write_failure(true);
    let reply = SummarizerReply::Text("the digest".to_string());
    let result = generate_report(&mut store, jan_first(), reply);
    match result {
        Err(ReportError::PersistError { text, detail: _ }) => {
            assert_eq!(text, "the digest");
        }
        _ => panic!("expected a persist error"),
    }
    assert_eq!(store.summary_count_for(jan_first()), 0);
}

#[test]
fn repeated_success_accumulates_two_records() {
    // Known behavior, documented as a non-goal: no deduplication by date.
    let mut store = store_with_three_messages();
    let first = generate_report(&mut store, jan_first(), SummarizerReply::Text("v1".to_string()));
    assert!(first.is_ok());
    let second = generate_report(&mut store, jan_first(), SummarizerReply::Text("v2".to_string()));
    assert!(second.is_ok());
    assert_eq!(store.summary_count_for(jan_first()), 2);
    assert!(store.has_summary(&"v1".to_string(), jan_first()));
    assert!(store.has_summary(&"v2".to_string(), jan_first()));
}

#[test]
fn aggregate_is_json_array_in_insertion_order() {
    let mut store = ArchiveStore::new();
    store.ingest("hi".to_string(), jan_first());
    store.ingest("yo".to_string(), jan_first());
    store.ingest("elsewhere".to_string(), jan_second());
    assert_eq!(store.aggregate_for(jan_first()), Some("[\"hi\",\"yo\"]".to_string()));
    assert_eq!(store.aggregate_for(jan_second()), Some("[\"elsewhere\"]".to_string()));
    let empty = ReportDate { year: 2024, month: 1, day: 3 };
    assert_eq!(store.aggregate_for(empty), None);
}

#[test]
fn aggregate_keeps_insertion_order_across_interleaved_dates() {
    let mut store = ArchiveStore::new();
    store.ingest("a".to_string(), jan_first());
    store.ingest("elsewhere".to_string(), jan_second());
    store.ingest("b".to_string(), jan_first());
    assert_eq!(store.aggregate_for(jan_first()), Some("[\"a\",\"b\"]".to_string()));
}

#[test]
fn generator_steps_through_one_cycle() {
    let state = GeneratorState::FetchPending { date: jan_first() };
    let state = generator_step(
        state,
        GeneratorEvent::MessagesFetched { aggregate: Some("[\"hi\"]".to_string()) },
    );
    match &state {
        GeneratorState::SummaryPending { date, payload } => {
            assert_eq!(*date, jan_first());
            assert_eq!(payload, "[\"hi\"]");
        }
        _ => panic!("expected the summarizer call to be pending"),
    }
    let state = generator_step(
        state,
        GeneratorEvent::SummaryReturned { reply: SummarizerReply::Text("digest".to_string()) },
    );
    match &state {
        GeneratorState::PersistPending { date, text } => {
            assert_eq!(*date, jan_first());
            assert_eq!(text, "digest");
        }
        _ => panic!("expected the insert to be pending"),
    }
    let state = generator_step(state, GeneratorEvent::SummaryPersisted { result: Ok(()) });
    match state {
        GeneratorState::Complete { outcome } => assert_eq!(outcome.ok(), Some("digest".to_string())),
        _ => panic!("expected the cycle to be complete"),
    }
}

#[test]
fn generator_reports_missing_aggregate() {
    let state = GeneratorState::FetchPending { date: jan_second() };
    let state = generator_step(state, GeneratorEvent::MessagesFetched { aggregate: None });
    assert!(matches!(
        state,
        GeneratorState::Complete { outcome: Err(ReportError::NoMessages) }
    ));
}

#[test]
fn generator_ignores_mismatched_event() {
    let state = GeneratorState::FetchPending { date: jan_first() };
    let state = generator_step(
        state,
        GeneratorEvent::SummaryPersisted { result: Err("out of order".to_string()) },
    );
    assert!(matches!(state, GeneratorState::FetchPending { date } if date == jan_first()));
}

#[test]
fn error_kinds_have_labels() {
    assert_eq!(ReportError::NoMessages.kind_label(), "NoMessages");
    let s = ReportError::SummarizationError { detail: "d".to_string() };
    assert_eq!(s.kind_label(), "SummarizationError");
    let p = ReportError::PersistError { text: "t".to_string(), detail: "d".to_string() };
    assert_eq!(p.kind_label(), "PersistError");
}
