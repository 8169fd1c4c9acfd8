use vstd::prelude::*;

use crate::models::ImageRecord;
use crate::persist::derive_filename;
use crate::persist::derived_name;

verus! {

/// One item of the row stream: either a successfully decoded record or a
/// row-level decode/transport error. A per-item error is recoverable and
/// never terminates the run.
pub enum StreamItem {
    Record(ImageRecord),
    DecodeError(String),
}

/// The severity of a diagnostic event. A skipped record is a warning,
/// distinct from a failure.
#[derive(Clone, Copy, Debug, PartialEq, Eq, Structural)]
pub enum Severity {
    Warning,
    Error,
}

/// One structured diagnostic event of a run. The orchestrator accumulates
/// these instead of logging ambiently, so the run's diagnostics are plain
/// values the caller can render.
pub enum LogEvent {
    /// A row-level decode or transport error on one stream item.
    StreamError { detail: String },
    /// A persistence failure for one record, carrying its identifier.
    PersistError { id: i32, detail: String },
    /// A record whose payload is absent: nothing to write, not a failure.
    SkippedNoPayload { id: i32 },
}

/// The severity of an event: absent payload is benign and reported at
/// warning level, everything else is an error.
pub open spec fn severity_spec(e: LogEvent) -> Severity {
    match e {
        LogEvent::SkippedNoPayload { .. } => Severity::Warning,
        LogEvent::StreamError { .. } => Severity::Error,
        LogEvent::PersistError { .. } => Severity::Error,
    }
}

impl LogEvent {
    /// The severity at which this event should be reported.
    pub fn severity(&self) -> (r: Severity)
        ensures
            r == severity_spec(*self),
    {
        match self {
            LogEvent::SkippedNoPayload { .. } => Severity::Warning,
            LogEvent::StreamError { .. } => Severity::Error,
            LogEvent::PersistError { .. } => Severity::Error,
        }
    }
}

/// The file one record asks to be written: the record's identifier (for
/// reporting the outcome), the derived filename (relative to the output
/// directory), and the full payload.
pub struct WritePlan {
    pub id: i32,
    pub filename: String,
    pub data: Vec<u8>,
}

/// The write a stream item calls for, if any: a record with a payload plans
/// one file under its derived name; a decode error or an absent payload
/// plans none.
pub open spec fn planned_write(item: StreamItem) -> Option<(Seq<char>, Seq<u8>)> {
    match item {
        StreamItem::Record(r) => match r.original_image {
            Some(data) => Some((derived_name(r.image_name@), data@)),
            None => None,
        },
        StreamItem::DecodeError(_) => None,
    }
}

/// The running state of one extraction: how many records were persisted, and
/// the diagnostic events so far. One record is fully handled before the next
/// is requested, so the caller drives this one item at a time.
pub struct Extraction {
    pub saved: u64,
    pub events: Vec<LogEvent>,
}

impl Extraction {
    /// A fresh run: nothing saved, no events.
    pub fn new() -> (r: Extraction)
        ensures
            r.saved == 0,
            r.events@ == Seq::<LogEvent>::empty(),
    {
        Extraction { saved: 0, events: Vec::new() }
    }

    /// Handles one stream item. A decode error is recorded and skipped; a
    /// record without a payload is recorded as a warning-level skip with no
    /// effect on the tally; a record with a payload changes nothing yet and
    /// returns the write plan for the caller to perform. The run never
    /// aborts on a single item.
    pub fn on_stream_item(&mut self, item: StreamItem) -> (r: Option<WritePlan>)
        ensures
            (r is Some) == (planned_write(item) is Some),
            r is Some ==> {
                &&& (r->0.filename@, r->0.data@) == planned_write(item)->0
                &&& *final(self) == *old(self)
            },
            item matches StreamItem::Record(rec) ==> (rec.original_image is Some ==> (r is Some
                && r->0.id == rec.id)),
            item matches StreamItem::DecodeError(detail) ==> {
                &&& final(self).saved == old(self).saved
                &&& final(self).events@ == old(self).events@.push(
                    LogEvent::StreamError { detail },
                )
            },
            item matches StreamItem::Record(rec) ==> (rec.original_image is None ==> {
                &&& final(self).saved == old(self).saved
                &&& final(self).events@ == old(self).events@.push(
                    LogEvent::SkippedNoPayload { id: rec.id },
                )
            }),
    {
        match item {
            StreamItem::Record(rec) => match rec.original_image {
                Some(data) => {
                    let filename = derive_filename(&rec.image_name);
                    Some(WritePlan { id: rec.id, filename, data })
                },
                None => {
                    self.events.push(LogEvent::SkippedNoPayload { id: rec.id });
                    None
                },
            },
            StreamItem::DecodeError(detail) => {
                self.events.push(LogEvent::StreamError { detail });
                None
            },
        }
    }

    /// Records the outcome of one attempted write: success bumps the tally
    /// and leaves no event; failure is recorded against the record's
    /// identifier and leaves the tally alone. Either way the run goes on.
    pub fn on_write_result(&mut self, id: i32, outcome: Result<(), String>)
        requires
            old(self).saved < u64::MAX,
        ensures
            outcome is Ok ==> {
                &&& final(self).saved == old(self).saved + 1
                &&& final(self).events@ == old(self).events@
            },
            outcome matches Err(detail) ==> {
                &&& final(self).saved == old(self).saved
                &&& final(self).events@ == old(self).events@.push(
                    LogEvent::PersistError { id, detail },
                )
            },
    {
        match outcome {
            Ok(()) => {
                self.saved = self.saved + 1;
            },
            Err(detail) => {
                self.events.push(LogEvent::PersistError { id, detail });
            },
        }
    }
}

} // verus!
