//! In-memory model of the archive store.
//!
//! The durable store keeps an append-only log of captured message payloads
//! and a table of generated summaries keyed by date. This model carries
//! exactly what the report pipeline reads and writes of it: payload text and
//! capture date per message, summary text and report date per summary, and a
//! flag standing for a storage collaborator whose summary insert fails.

use vstd::prelude::*;
use crate::date::ReportDate;
use crate::codec::encode_batch;
use crate::codec::encode_batch_spec;

verus! {

/// One captured message: its payload text and the date it was captured.
pub struct MessageRecord {
    pub data: String,
    pub date: ReportDate,
}

/// One generated summary: its text and the date it reports on.
pub struct SummaryRecord {
    pub text: String,
    pub date: ReportDate,
}

/// The payload texts of the messages captured on one date, in insertion
/// order.
pub open spec fn texts_for(ms: Seq<MessageRecord>, d: ReportDate) -> Seq<Seq<char>>
    decreases ms.len(),
{
    if ms.len() == 0 {
        Seq::empty()
    } else if ms.last().date == d {
        texts_for(ms.drop_last(), d).push(ms.last().data@)
    } else {
        texts_for(ms.drop_last(), d)
    }
}

/// The summary texts recorded for one date, in insertion order.
pub open spec fn summaries_for(ss: Seq<SummaryRecord>, d: ReportDate) -> Seq<Seq<char>>
    decreases ss.len(),
{
    if ss.len() == 0 {
        Seq::empty()
    } else if ss.last().date == d {
        summaries_for(ss.drop_last(), d).push(ss.last().text@)
    } else {
        summaries_for(ss.drop_last(), d)
    }
}

/// In-memory archive: message log, summary table, and a fault flag modelling
/// a broken storage collaborator.
pub struct ArchiveStore {
    messages: Vec<MessageRecord>,
    summaries: Vec<SummaryRecord>,
    summary_write_fails: bool,
}

impl ArchiveStore {
    /// The message log.
    pub closed spec fn msgs(self) -> Seq<MessageRecord> {
        self.messages@
    }

    /// The summary table.
    pub closed spec fn sums(self) -> Seq<SummaryRecord> {
        self.summaries@
    }

    /// Whether the next summary insert fails.
    pub closed spec fn write_fails(self) -> bool {
        self.summary_write_fails
    }

    /// Message payloads captured on `d`, in insertion order.
    pub open spec fn msgs_for(self, d: ReportDate) -> Seq<Seq<char>> {
        texts_for(self.msgs(), d)
    }

    /// Summary texts recorded for `d`, in insertion order.
    pub open spec fn sums_for(self, d: ReportDate) -> Seq<Seq<char>> {
        summaries_for(self.sums(), d)
    }

    /// An empty archive with a healthy storage collaborator.
    pub fn new() -> (s: ArchiveStore)
        ensures
            s.msgs() == Seq::<MessageRecord>::empty(),
            s.sums() == Seq::<SummaryRecord>::empty(),
            !s.write_fails(),
    {
        ArchiveStore { messages: Vec::new(), summaries: Vec::new(), summary_write_fails: false }
    }

    /// Append one captured message to the log.
    pub fn ingest(&mut self, data: String, date: ReportDate)
        ensures
            final(self).msgs() == old(self).msgs().push(MessageRecord { data, date }),
            final(self).sums() == old(self).sums(),
            final(self).write_fails() == old(self).write_fails(),
    {
        self.messages.push(MessageRecord { data, date });
    }

    /// Make the next summary insert fail or succeed: stands for the storage
    /// collaborator breaking or recovering.
    pub fn set_summary_write_failure(&mut self, fails: bool)
        ensures
            final(self).write_fails() == fails,
            final(self).msgs() == old(self).msgs(),
            final(self).sums() == old(self).sums(),
    {
        self.summary_write_fails = fails;
    }

    /// The aggregate of all payloads captured on `date`: a JSON array of the
    /// payload texts in insertion order, or `None` when no message of that
    /// date exists.
    pub fn aggregate_for(&self, date: ReportDate) -> (r: Option<String>)
        ensures
            match r {
                Some(a) => self.msgs_for(date).len() > 0 && a@ == encode_batch_spec(
                    self.msgs_for(date),
                ),
                None => self.msgs_for(date).len() == 0,
            },
    {
        let mut acc: Vec<String> = Vec::new();
        let n = self.messages.len();
        let mut i: usize = 0;
        proof {
            assert(self.msgs().take(0) =~= Seq::<MessageRecord>::empty());
            assert(acc.deep_view() =~= texts_for(self.msgs().take(0), date));
        }
        while i < n
            invariant
                n == self.messages@.len(),
                i <= n,
                acc.deep_view() == texts_for(self.msgs().take(i as int), date),
            decreases n - i,
        {
            proof {
                assert(self.msgs().take(i + 1).drop_last() =~= self.msgs().take(i as int));
                assert(self.msgs().take(i + 1).last() == self.msgs()[i as int]);
            }
            let rec = &self.messages[i];
            if rec.date == date {
                let copy = rec.data.clone();
                acc.push(copy);
                proof {
                    assert(acc.deep_view() =~= texts_for(self.msgs().take(i + 1), date));
                }
            } else {
                proof {
                    assert(acc.deep_view() =~= texts_for(self.msgs().take(i + 1), date));
                }
            }
            i = i + 1;
        }
        proof {
            assert(self.msgs().take(n as int) =~= self.msgs());
        }
        if acc.len() == 0 {
            None
        } else {
            Some(encode_batch(&acc))
        }
    }

    /// Record one summary for `date`. Succeeds and appends exactly one row
    /// unless the storage collaborator is broken, in which case nothing
    /// changes and the collaborator's complaint is returned.
    pub fn insert_summary(&mut self, text: String, date: ReportDate) -> (r: Result<(), String>)
        ensures
            match r {
                Ok(()) => {
                    &&& !old(self).write_fails()
                    &&& final(self).sums() == old(self).sums().push(SummaryRecord { text, date })
                    &&& final(self).sums_for(date) == old(self).sums_for(date).push(text@)
                    &&& forall|d2: ReportDate|
                        d2 != date ==> final(self).sums_for(d2) == old(self).sums_for(d2)
                    &&& final(self).msgs() == old(self).msgs()
                    &&& final(self).write_fails() == old(self).write_fails()
                },
                Err(_) => old(self).write_fails() && *final(self) == *old(self),
            },
    {
        if self.summary_write_fails {
            Err(String::from_str("the summary insert failed"))
        } else {
            let ghost pre = self.summaries@;
            self.summaries.push(SummaryRecord { text, date });
            proof {
                let rec = SummaryRecord { text, date };
                assert(self.summaries@ == pre.push(rec));
                assert(pre.push(rec).drop_last() =~= pre);
                assert(self.sums_for(date) =~= summaries_for(pre, date).push(text@));
                assert forall|d2: ReportDate| d2 != date implies self.sums_for(d2)
                    =~= summaries_for(pre, d2) by {
                    assert(pre.push(rec).drop_last() =~= pre);
                }
            }
            Ok(())
        }
    }

    /// How many summaries are recorded for `date`.
    pub fn summary_count_for(&self, date: ReportDate) -> (n: usize)
        ensures
            n == self.sums_for(date).len(),
    {
        let mut count: usize = 0;
        let total = self.summaries.len();
        let mut i: usize = 0;
        proof {
            assert(self.sums().take(0) =~= Seq::<SummaryRecord>::empty());
        }
        while i < total
            invariant
                total == self.summaries@.len(),
                i <= total,
                count == summaries_for(self.sums().take(i as int), date).len(),
                count <= i,
            decreases total - i,
        {
            proof {
                assert(self.sums().take(i + 1).drop_last() =~= self.sums().take(i as int));
                assert(self.sums().take(i + 1).last() == self.sums()[i as int]);
            }
            if self.summaries[i].date == date {
                count = count + 1;
            }
            i = i + 1;
        }
        proof {
            assert(self.sums().take(total as int) =~= self.sums());
        }
        count
    }

    /// Whether a summary with exactly this text is recorded for `date`.
    pub fn has_summary(&self, text: &String, date: ReportDate) -> (b: bool)
        ensures
            b == self.sums_for(date).contains(text@),
    {
        let total = self.summaries.len();
        let mut i: usize = 0;
        proof {
            assert(self.sums().take(0) =~= Seq::<SummaryRecord>::empty());
        }
        while i < total
            invariant
                total == self.summaries@.len(),
                i <= total,
                !summaries_for(self.sums().take(i as int), date).contains(text@),
            decreases total - i,
        {
            proof {
                assert(self.sums().take(i + 1).drop_last() =~= self.sums().take(i as int));
                assert(self.sums().take(i + 1).last() == self.sums()[i as int]);
            }
            let rec = &self.summaries[i];
            if rec.date == date && rec.text == *text {
                proof {
                    let pre = summaries_for(self.sums().take(i as int), date);
                    assert(summaries_for(self.sums().take(i + 1), date) == pre.push(text@));
                    assert(pre.push(text@)[pre.len() as int] == text@);
                    lemma_summaries_prefix(self.sums(), date, i + 1);
                }
                return true;
            }
            proof {
                let pre = summaries_for(self.sums().take(i as int), date);
                if self.sums()[i as int].date == date {
                    assert(summaries_for(self.sums().take(i + 1), date) == pre.push(
                        self.sums()[i as int].text@,
                    ));
                    assert forall|j: int|
                        0 <= j < pre.push(self.sums()[i as int].text@).len() implies pre.push(
                        self.sums()[i as int].text@,
                    )[j] != text@ by {
                        if j < pre.len() {
                            assert(pre[j] != text@);
                        }
                    }
                }
            }
            i = i + 1;
        }
        proof {
            assert(self.sums().take(total as int) =~= self.sums());
        }
        false
    }
}

/// A text recorded among the summaries of a prefix of the table is recorded
/// among the summaries of the whole table.
proof fn lemma_summaries_prefix(ss: Seq<SummaryRecord>, d: ReportDate, k: int)
    requires
        0 <= k <= ss.len(),
    ensures
        forall|t: Seq<char>|
            summaries_for(ss.take(k), d).contains(t) ==> summaries_for(ss, d).contains(t),
    decreases ss.len() - k,
{
    if k < ss.len() {
        assert(ss.take(k + 1).drop_last() =~= ss.take(k));
        lemma_summaries_prefix(ss, d, k + 1);
        assert forall|t: Seq<char>|
            summaries_for(ss.take(k), d).contains(t) implies summaries_for(ss, d).contains(t) by {
            let pre = summaries_for(ss.take(k), d);
            let j = choose|j: int| 0 <= j < pre.len() && pre[j] == t;
            if ss.take(k + 1).last().date == d {
                assert(summaries_for(ss.take(k + 1), d) == pre.push(ss.take(k + 1).last().text@));
                assert(summaries_for(ss.take(k + 1), d)[j] == t);
            } else {
                assert(summaries_for(ss.take(k + 1), d) == pre);
            }
            assert(summaries_for(ss.take(k + 1), d).contains(t));
        }
    } else {
        assert(ss.take(k) =~= ss);
    }
}

} // verus!
