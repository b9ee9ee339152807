//! The report generator: one cycle of fetch, summarize, persist.
//!
//! One cycle reads the aggregate of one date's archived messages, hands it
//! to the summarization capability, records the returned text as that date's
//! summary, and returns the text. Absence of messages, a failed summarizer
//! and a failed insert are three distinct, inspectable outcomes; none of
//! them writes a summary row.
//!
//! The summarizer itself is an outside capability reached by the driver; its
//! answer enters here as a value, so every decision taken on that answer is
//! verified for each answer it could give.

use vstd::prelude::*;
use vstd::pervasive::unreached;
use crate::date::ReportDate;
use crate::store::ArchiveStore;
use crate::store::SummaryRecord;
use crate::store::summaries_for;

verus! {

/// What the summarization capability came back with.
pub enum SummarizerReply {
    /// The digest text it produced.
    Text(String),
    /// Its complaint: network, quota, malformed answer.
    Failure(String),
}

/// Why a report cycle produced no stored summary.
pub enum ReportError {
    /// No message was archived for the requested date.
    NoMessages,
    /// The summarization capability failed; its complaint is carried along.
    SummarizationError { detail: String },
    /// The summary insert failed. The text is carried along so a caller can
    /// still salvage it: delivered, but not recorded.
    PersistError { text: String, detail: String },
}

impl ReportError {
    /// Short name of the error category, for log lines.
    pub fn kind_label(&self) -> (r: &'static str)
        ensures
            match self {
                ReportError::NoMessages => r@ == "NoMessages"@,
                ReportError::SummarizationError { .. } => r@ == "SummarizationError"@,
                ReportError::PersistError { .. } => r@ == "PersistError"@,
            },
    {
        match self {
            ReportError::NoMessages => "NoMessages",
            ReportError::SummarizationError { .. } => "SummarizationError",
            ReportError::PersistError { .. } => "PersistError",
        }
    }
}

/// Where one report cycle stands: each pending state names the outside call
/// the driver must make next; `Complete` carries the cycle's outcome.
pub enum GeneratorState {
    /// Query the archive for the date's aggregate next.
    FetchPending { date: ReportDate },
    /// Hand the fetched aggregate to the summarizer next.
    SummaryPending { date: ReportDate, payload: String },
    /// Insert the summarizer's text as the date's summary next.
    PersistPending { date: ReportDate, text: String },
    /// The cycle is over.
    Complete { outcome: Result<String, ReportError> },
}

/// What the driver's last outside call came back with.
pub enum GeneratorEvent {
    /// The archive's aggregate for the date, or `None` when it has no row.
    MessagesFetched { aggregate: Option<String> },
    /// The summarizer's answer.
    SummaryReturned { reply: SummarizerReply },
    /// Whether the summary insert went through; `Err` carries the store's
    /// complaint.
    SummaryPersisted { result: Result<(), String> },
}

/// The generator's decision on one event: either the next pending call, or
/// the cycle's outcome. An event that does not answer the pending call
/// changes nothing.
pub open spec fn spec_generator_step(s: GeneratorState, e: GeneratorEvent) -> GeneratorState {
    match (s, e) {
        (
            GeneratorState::FetchPending { date },
            GeneratorEvent::MessagesFetched { aggregate },
        ) => match aggregate {
            Option::None => GeneratorState::Complete {
                outcome: Err(ReportError::NoMessages),
            },
            Option::Some(payload) => GeneratorState::SummaryPending { date, payload },
        },
        (
            GeneratorState::SummaryPending { date, payload: _ },
            GeneratorEvent::SummaryReturned { reply },
        ) => match reply {
            SummarizerReply::Failure(detail) => GeneratorState::Complete {
                outcome: Err(ReportError::SummarizationError { detail }),
            },
            SummarizerReply::Text(text) => GeneratorState::PersistPending { date, text },
        },
        (
            GeneratorState::PersistPending { date: _, text },
            GeneratorEvent::SummaryPersisted { result },
        ) => match result {
            Result::Ok(u) => GeneratorState::Complete { outcome: Ok(text) },
            Result::Err(detail) => GeneratorState::Complete {
                outcome: Err(ReportError::PersistError { text, detail }),
            },
        },
        (other, _) => other,
    }
}

/// Executable generator step; returns exactly the decision of
/// [`spec_generator_step`].
pub fn generator_step(s: GeneratorState, e: GeneratorEvent) -> (r: GeneratorState)
    ensures
        r == spec_generator_step(s, e),
{
    match (s, e) {
        (
            GeneratorState::FetchPending { date },
            GeneratorEvent::MessagesFetched { aggregate },
        ) => match aggregate {
            Option::None => GeneratorState::Complete {
                outcome: Err(ReportError::NoMessages),
            },
            Option::Some(payload) => GeneratorState::SummaryPending { date, payload },
        },
        (
            GeneratorState::SummaryPending { date, payload: _ },
            GeneratorEvent::SummaryReturned { reply },
        ) => match reply {
            SummarizerReply::Failure(detail) => GeneratorState::Complete {
                outcome: Err(ReportError::SummarizationError { detail }),
            },
            SummarizerReply::Text(text) => GeneratorState::PersistPending { date, text },
        },
        (
            GeneratorState::PersistPending { date: _, text },
            GeneratorEvent::SummaryPersisted { result },
        ) => match result {
            Result::Ok(_) => GeneratorState::Complete { outcome: Ok(text) },
            Result::Err(detail) => GeneratorState::Complete {
                outcome: Err(ReportError::PersistError { text, detail }),
            },
        },
        (other, _) => other,
    }
}

/// One full report cycle against the in-memory archive, with the
/// summarizer's answer handed in as a value.
///
/// Exactly one of four outcomes, each pinned to its condition:
/// - no message archived for `date`: `NoMessages`, archive untouched;
/// - the summarizer failed: `SummarizationError`, archive untouched;
/// - the insert failed: `PersistError` carrying the text, archive untouched;
/// - otherwise: the summarizer's text, passed through unaltered, with
///   exactly one new summary row for `date` and no other change.
pub fn generate_report(store: &mut ArchiveStore, date: ReportDate, reply: SummarizerReply) -> (r:
    Result<String, ReportError>)
    ensures
        match r {
            Ok(text) => {
                &&& old(store).msgs_for(date).len() > 0
                &&& !old(store).write_fails()
                &&& reply matches SummarizerReply::Text(t) && text@ == t@
                &&& final(store).sums() == old(store).sums().push(
                    SummaryRecord { text, date },
                )
                &&& final(store).sums_for(date) == old(store).sums_for(date).push(text@)
                &&& forall|d2: ReportDate|
                    d2 != date ==> final(store).sums_for(d2) == old(store).sums_for(d2)
                &&& final(store).msgs() == old(store).msgs()
                &&& final(store).write_fails() == old(store).write_fails()
            },
            Err(e) => {
                &&& *final(store) == *old(store)
                &&& match e {
                    ReportError::NoMessages => old(store).msgs_for(date).len() == 0,
                    ReportError::SummarizationError { detail } => {
                        &&& old(store).msgs_for(date).len() > 0
                        &&& reply matches SummarizerReply::Failure(f) && detail@ == f@
                    },
                    ReportError::PersistError { text, detail } => {
                        &&& old(store).msgs_for(date).len() > 0
                        &&& old(store).write_fails()
                        &&& reply matches SummarizerReply::Text(t) && text@ == t@
                    },
                }
            },
        },
{
    let st = GeneratorState::FetchPending { date };
    let aggregate = store.aggregate_for(date);
    let st = generator_step(st, GeneratorEvent::MessagesFetched { aggregate });
    let st = match st {
        GeneratorState::Complete { outcome } => return outcome,
        GeneratorState::SummaryPending { date: d, payload } => generator_step(
            GeneratorState::SummaryPending { date: d, payload },
            GeneratorEvent::SummaryReturned { reply },
        ),
        _ => unreached(),
    };
    match st {
        GeneratorState::Complete { outcome } => outcome,
        GeneratorState::PersistPending { date: d, text } => {
            let stored = text.clone();
            let result = store.insert_summary(stored, d);
            let st = generator_step(
                GeneratorState::PersistPending { date: d, text },
                GeneratorEvent::SummaryPersisted { result },
            );
            match st {
                GeneratorState::Complete { outcome } => outcome,
                _ => unreached(),
            }
        },
        _ => unreached(),
    }
}

/// Report generation is deliberately not idempotent: one successful run for
/// a date appends one summary row, and a second successful run for the same
/// date appends another, so the date then carries both texts rather than
/// one. This is the documented behavior of repeating a cycle, not
/// deduplication.
pub proof fn lemma_repeat_run_accumulates(
    ss: Seq<SummaryRecord>,
    first: SummaryRecord,
    second: SummaryRecord,
    date: ReportDate,
)
    requires
        first.date == date,
        second.date == date,
    ensures
        summaries_for(ss.push(first).push(second), date) == summaries_for(ss, date).push(
            first.text@,
        ).push(second.text@),
{
    let twice = ss.push(first).push(second);
    assert(twice.last() == second);
    assert(twice.drop_last() =~= ss.push(first));
    assert(summaries_for(twice, date) == summaries_for(ss.push(first), date).push(second.text@));
    assert(ss.push(first).last() == first);
    assert(ss.push(first).drop_last() =~= ss);
    assert(summaries_for(ss.push(first), date) == summaries_for(ss, date).push(first.text@));
}

} // verus!
