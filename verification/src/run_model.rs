use vstd::prelude::*;

use crate::models::ImageRecord;
use crate::pipeline::Extraction;
use crate::pipeline::LogEvent;
use crate::pipeline::Severity;
use crate::pipeline::StreamItem;
use crate::pipeline::WritePlan;
use crate::pipeline::planned_write;
use crate::pipeline::severity_spec;

verus! {

/// The identifying shape of a diagnostic event, without the free-text detail
/// that only the data source or the filesystem can supply.
#[derive(Clone, Copy, PartialEq, Eq, Structural)]
pub enum EventTag {
    StreamError,
    PersistError(i32),
    SkippedNoPayload(i32),
}

/// The tag of a concrete event.
pub open spec fn tag_of(e: LogEvent) -> EventTag {
    match e {
        LogEvent::StreamError { .. } => EventTag::StreamError,
        LogEvent::PersistError { id, .. } => EventTag::PersistError(id),
        LogEvent::SkippedNoPayload { id } => EventTag::SkippedNoPayload(id),
    }
}

/// A successfully decoded record that carries a payload.
pub open spec fn is_payload_record(item: StreamItem) -> bool {
    item matches StreamItem::Record(r) && r.original_image is Some
}

/// The events one stream item contributes, given whether its write (if one
/// is planned) succeeds. This mirrors one loop iteration of the orchestrator:
/// what `Extraction::on_stream_item` records for the item, followed by what
/// `Extraction::on_write_result` records for the attempted write.
pub open spec fn item_events(item: StreamItem, write_ok: bool) -> Seq<EventTag> {
    match item {
        StreamItem::DecodeError(_) => seq![EventTag::StreamError],
        StreamItem::Record(r) => match r.original_image {
            None => seq![EventTag::SkippedNoPayload(r.id)],
            Some(_) => if write_ok {
                Seq::empty()
            } else {
                seq![EventTag::PersistError(r.id)]
            },
        },
    }
}

/// What one stream item adds to the tally: one for a persisted record,
/// nothing for a decode error, an absent payload, or a failed write.
pub open spec fn item_saved(item: StreamItem, write_ok: bool) -> nat {
    if planned_write(item) is Some && write_ok {
        1nat
    } else {
        0nat
    }
}

/// The tally after a whole run: the stream consumed in order, the i-th entry
/// of `ok` saying whether the i-th item's write (if planned) succeeds.
pub open spec fn saved_count(items: Seq<StreamItem>, ok: Seq<bool>) -> nat
    decreases items.len(),
{
    if items.len() == 0 {
        0nat
    } else {
        item_saved(items[0], ok[0]) + saved_count(items.drop_first(), ok.drop_first())
    }
}

/// The event tags of a whole run, in emission order.
pub open spec fn event_tags(items: Seq<StreamItem>, ok: Seq<bool>) -> Seq<EventTag>
    decreases items.len(),
{
    if items.len() == 0 {
        Seq::empty()
    } else {
        item_events(items[0], ok[0]) + event_tags(items.drop_first(), ok.drop_first())
    }
}

/// The files a whole run writes, in order: one (filename, content) pair per
/// record whose payload is present and whose write succeeds.
pub open spec fn planned_writes(items: Seq<StreamItem>, ok: Seq<bool>) -> Seq<
    (Seq<char>, Seq<u8>),
>
    decreases items.len(),
{
    if items.len() == 0 {
        Seq::empty()
    } else {
        (match planned_write(items[0]) {
            Some(p) => if ok[0] {
                seq![p]
            } else {
                Seq::empty()
            },
            None => Seq::empty(),
        }) + planned_writes(items.drop_first(), ok.drop_first())
    }
}

/// The success flags of a sequence of write outcomes.
pub open spec fn oks_of(outcomes: Seq<Result<(), String>>) -> Seq<bool> {
    outcomes.map_values(|o: Result<(), String>| o is Ok)
}

/// Replays a run whose write outcomes are already known: feeds the
/// orchestrator one item at a time and hands each planned write its outcome,
/// exactly as the caller's loop does. Its contract shows that the per-step
/// contracts compose to the run model: the final tally is `saved_count`, the
/// accumulated events carry exactly the model's tags in order, and the plans
/// that succeeded are exactly the model's `planned_writes`, one per success
/// counted.
pub fn replay_run(items: Vec<StreamItem>, outcomes: Vec<Result<(), String>>) -> (r: (
    Extraction,
    Vec<WritePlan>,
))
    requires
        items@.len() == outcomes@.len(),
        items@.len() < u64::MAX,
    ensures
        r.0.saved == saved_count(items@, oks_of(outcomes@)),
        r.0.events@.map_values(|e: LogEvent| tag_of(e)) == event_tags(items@, oks_of(outcomes@)),
        r.1@.map_values(|p: WritePlan| (p.filename@, p.data@)) == planned_writes(
            items@,
            oks_of(outcomes@),
        ),
        r.0.saved == r.1@.len(),
{
    let ghost items0 = items@;
    let ghost oks0 = oks_of(outcomes@);
    let mut items = items;
    let mut outcomes = outcomes;
    let mut extraction = Extraction::new();
    let mut written: Vec<WritePlan> = Vec::new();
    while items.len() > 0
        invariant
            items@.len() == outcomes@.len(),
            items@.len() <= items0.len() < u64::MAX,
            extraction.saved == written@.len(),
            written@.len() <= items0.len() - items@.len(),
            saved_count(items0, oks0) == extraction.saved + saved_count(
                items@,
                oks_of(outcomes@),
            ),
            event_tags(items0, oks0) =~= extraction.events@.map_values(
                |e: LogEvent| tag_of(e),
            ) + event_tags(items@, oks_of(outcomes@)),
            planned_writes(items0, oks0) =~= written@.map_values(
                |p: WritePlan| (p.filename@, p.data@),
            ) + planned_writes(items@, oks_of(outcomes@)),
        decreases items@.len(),
    {
        let ghost pre_items = items@;
        let ghost pre_oks = oks_of(outcomes@);
        let ghost pre_events = extraction.events@;
        let ghost pre_written = written@;
        let ghost pre_saved = extraction.saved;
        let item = items.remove(0);
        let outcome = outcomes.remove(0);
        proof {
            assert(items@ =~= pre_items.drop_first());
            assert(oks_of(outcomes@) =~= pre_oks.drop_first());
            assert((outcome is Ok) == pre_oks[0]);
        }
        match extraction.on_stream_item(item) {
            Some(plan) => {
                let ok = outcome.is_ok();
                extraction.on_write_result(plan.id, outcome);
                if ok {
                    written.push(plan);
                }
            },
            None => {},
        }
        proof {
            assert(extraction.events@.map_values(|e: LogEvent| tag_of(e)) =~= pre_events
                .map_values(|e: LogEvent| tag_of(e)) + item_events(pre_items[0], pre_oks[0]));
            assert(extraction.saved == pre_saved + item_saved(pre_items[0], pre_oks[0]));
            assert(written@.map_values(|p: WritePlan| (p.filename@, p.data@)) =~= pre_written
                .map_values(|p: WritePlan| (p.filename@, p.data@)) + (match planned_write(
                pre_items[0],
            ) {
                Some(p) => if pre_oks[0] {
                    seq![p]
                } else {
                    Seq::empty()
                },
                None => Seq::empty(),
            }));
        }
    }
    proof {
        assert(extraction.events@.map_values(|e: LogEvent| tag_of(e)) =~= event_tags(
            items0,
            oks0,
        ));
        assert(written@.map_values(|p: WritePlan| (p.filename@, p.data@)) =~= planned_writes(
            items0,
            oks0,
        ));
    }
    (extraction, written)
}

/// Law (skip on absent payload): a record without a payload plans no file,
/// leaves the tally unchanged, and contributes exactly one event, reported
/// at warning severity rather than as an error.
pub proof fn lemma_skip_on_null(r: ImageRecord, write_ok: bool)
    requires
        r.original_image is None,
    ensures
        planned_write(StreamItem::Record(r)) is None,
        item_saved(StreamItem::Record(r), write_ok) == 0,
        item_events(StreamItem::Record(r), write_ok) =~= seq![EventTag::SkippedNoPayload(r.id)],
        severity_spec(LogEvent::SkippedNoPayload { id: r.id }) == Severity::Warning,
{
}

/// A run whose records all carry payloads and whose writes all succeed saves
/// every record, writes one file per record, and logs nothing.
pub proof fn lemma_all_writes_succeed(items: Seq<StreamItem>, ok: Seq<bool>)
    requires
        items.len() == ok.len(),
        forall|i: int| 0 <= i < items.len() ==> is_payload_record(#[trigger] items[i]),
        forall|i: int| 0 <= i < ok.len() ==> #[trigger] ok[i],
    ensures
        saved_count(items, ok) == items.len(),
        event_tags(items, ok) =~= Seq::<EventTag>::empty(),
        planned_writes(items, ok).len() == items.len(),
    decreases items.len(),
{
    if items.len() > 0 {
        let rest = items.drop_first();
        let okr = ok.drop_first();
        assert forall|i: int| 0 <= i < rest.len() implies is_payload_record(#[trigger] rest[i]) by {
            assert(rest[i] == items[i + 1]);
        }
        assert forall|i: int| 0 <= i < okr.len() implies #[trigger] okr[i] by {
            assert(okr[i] == ok[i + 1]);
        }
        lemma_all_writes_succeed(rest, okr);
        assert(is_payload_record(items[0]));
        assert(ok[0]);
    }
}

/// Law (fault isolation): in a run of N records that all carry payloads,
/// where exactly the k-th write fails and every other write succeeds, N - 1
/// files are written and counted, and the event log holds exactly one entry:
/// a persistence error carrying the k-th record's identifier. The run
/// completes instead of aborting on the failure.
pub proof fn lemma_fault_isolation(items: Seq<StreamItem>, ok: Seq<bool>, k: int)
    requires
        items.len() == ok.len(),
        0 <= k < items.len(),
        forall|i: int| 0 <= i < items.len() ==> is_payload_record(#[trigger] items[i]),
        forall|i: int| 0 <= i < ok.len() ==> ((#[trigger] ok[i]) <==> i != k),
    ensures
        saved_count(items, ok) == items.len() - 1,
        planned_writes(items, ok).len() == items.len() - 1,
        event_tags(items, ok) =~= seq![EventTag::PersistError(items[k]->Record_0.id)],
    decreases items.len(),
{
    let rest = items.drop_first();
    let okr = ok.drop_first();
    assert forall|i: int| 0 <= i < rest.len() implies is_payload_record(#[trigger] rest[i]) by {
        assert(rest[i] == items[i + 1]);
    }
    assert(is_payload_record(items[0]));
    if k == 0 {
        assert forall|i: int| 0 <= i < okr.len() implies #[trigger] okr[i] by {
            assert(okr[i] == ok[i + 1]);
        }
        lemma_all_writes_succeed(rest, okr);
        assert(!ok[0]);
    } else {
        assert forall|i: int| 0 <= i < okr.len() implies ((#[trigger] okr[i]) <==> i != k - 1) by {
            assert(okr[i] == ok[i + 1]);
        }
        lemma_fault_isolation(rest, okr, k - 1);
        assert(rest[k - 1] == items[k]);
        assert(ok[0]);
    }
}

} // verus!
