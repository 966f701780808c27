//! The per-cycle accumulator ("candle") and the single-pass fold that fills
//! one candle per garbage-collection id from the event stream.

use vstd::prelude::*;

use crate::events::CollectionType;
use crate::events::GCWhen;
use crate::events::JfrEvent;
use crate::events::route_id;

verus! {

/// The accumulated before/after snapshot of one collection cycle.
///
/// A candle is created in its zeroed state on the first event that
/// references its cycle id and then mutated by every later event with the
/// same id; `tenured` is the only additive field, all others are
/// overwritten.
#[derive(Debug, Clone, PartialEq, Eq)]
pub struct Candle {
    pub gc_id: u64,
    pub before_gc: u64,
    pub young_before: u64,
    pub young_after: u64,
    pub survivors_before: u64,
    pub survivors_after: u64,
    pub after_gc: u64,
    pub tenured: u64,
    pub gc_name: String,
    pub gc_pause_name: String,
    pub tenuring_threshold: u64,
    pub collection_type: CollectionType,
}

/// The mathematical image of a [`Candle`]: the same record with its strings
/// as character sequences.
#[verifier::ext_equal]
pub struct CandleView {
    pub gc_id: u64,
    pub before_gc: u64,
    pub young_before: u64,
    pub young_after: u64,
    pub survivors_before: u64,
    pub survivors_after: u64,
    pub after_gc: u64,
    pub tenured: u64,
    pub gc_name: Seq<char>,
    pub gc_pause_name: Seq<char>,
    pub tenuring_threshold: u64,
    pub collection_type: CollectionType,
}

impl View for Candle {
    type V = CandleView;

    open spec fn view(&self) -> CandleView {
        CandleView {
            gc_id: self.gc_id,
            before_gc: self.before_gc,
            young_before: self.young_before,
            young_after: self.young_after,
            survivors_before: self.survivors_before,
            survivors_after: self.survivors_after,
            after_gc: self.after_gc,
            tenured: self.tenured,
            gc_name: self.gc_name@,
            gc_pause_name: self.gc_pause_name@,
            tenuring_threshold: self.tenuring_threshold,
            collection_type: self.collection_type,
        }
    }
}

/// The state a candle is created in: everything zero, empty names, unknown
/// collection type.
pub open spec fn init_candle() -> CandleView {
    CandleView {
        gc_id: 0,
        before_gc: 0,
        young_before: 0,
        young_after: 0,
        survivors_before: 0,
        survivors_after: 0,
        after_gc: 0,
        tenured: 0,
        gc_name: Seq::empty(),
        gc_pause_name: Seq::empty(),
        tenuring_threshold: 0,
        collection_type: CollectionType::Unknown,
    }
}

impl Default for Candle {
    /// The zeroed state that a candle starts from.
    fn default() -> (c: Self)
        ensures
            c@ == init_candle(),
    {
        let c = Candle {
            gc_id: 0,
            before_gc: 0,
            young_before: 0,
            young_after: 0,
            survivors_before: 0,
            survivors_after: 0,
            after_gc: 0,
            tenured: 0,
            gc_name: String::new(),
            gc_pause_name: String::new(),
            tenuring_threshold: 0,
            collection_type: CollectionType::Unknown,
        };
        proof {
            assert(c@ =~= init_candle());
        }
        c
    }
}

/// The human-readable tick title of a candle's cycle: the collection type's
/// name, or the pause-phase name when the type is unknown.
pub open spec fn spec_title(c: CandleView) -> Seq<char> {
    match c.collection_type {
        CollectionType::Normal => "Normal"@,
        CollectionType::PrepareMixed => "PrepareMixed"@,
        CollectionType::ConcurrentStart => "ConcurrentStart"@,
        CollectionType::Mixed => "Mixed"@,
        CollectionType::Unknown => c.gc_pause_name,
    }
}

impl Candle {
    /// The tick title: the collection type's name, falling back to the
    /// pause-phase name when the type is unknown.
    pub fn title(&self) -> (t: String)
        ensures
            t@ == spec_title(self@),
    {
        match self.collection_type {
            CollectionType::Normal => "Normal".to_owned(),
            CollectionType::PrepareMixed => "PrepareMixed".to_owned(),
            CollectionType::ConcurrentStart => "ConcurrentStart".to_owned(),
            CollectionType::Mixed => "Mixed".to_owned(),
            CollectionType::Unknown => self.gc_pause_name.clone(),
        }
    }
}

/// How one event updates the candle of the bucket `id` it was routed to.
///
/// Every event re-stamps the candle's cycle id; promotions with the tenured
/// flag add their size (the whole buffer for the new-buffer form) to the
/// cumulative tenured bytes, saturating rather than overflowing; summaries
/// overwrite the before or after occupancy fields; the remaining kinds
/// overwrite the collection type, the names and the tenuring threshold; all
/// other events leave the candle as it is.
pub open spec fn spec_apply(c: CandleView, e: JfrEvent, id: u64) -> CandleView {
    let c = CandleView { gc_id: id, ..c };
    match e {
        JfrEvent::G1GarbageCollection { values } => CandleView {
            collection_type: values.type_,
            ..c
        },
        JfrEvent::PromoteObjectOutsidePLAB { values } => {
            if values.tenured {
                CandleView { tenured: c.tenured.saturating_add(values.object_size), ..c }
            } else {
                c
            }
        },
        JfrEvent::PromoteObjectInNewPLAB { values } => {
            if values.tenured {
                CandleView { tenured: c.tenured.saturating_add(values.plab_size), ..c }
            } else {
                c
            }
        },
        JfrEvent::G1HeapSummary { values } => match values.when {
            GCWhen::Before => CandleView {
                young_before: values.eden_used,
                survivors_before: values.survivor_used,
                ..c
            },
            GCWhen::After => CandleView {
                young_after: values.eden_used,
                survivors_after: values.survivor_used,
                ..c
            },
        },
        JfrEvent::GCHeapSummary { values } => match values.when {
            GCWhen::Before => CandleView { before_gc: values.heap_used, ..c },
            GCWhen::After => CandleView { gc_id: values.gc_id, after_gc: values.heap_used, ..c },
        },
        JfrEvent::GarbageCollection { values } => CandleView { gc_name: values.name@, ..c },
        JfrEvent::GCPhasePause { values } => CandleView { gc_pause_name: values.name@, ..c },
        JfrEvent::YoungGarbageCollection { values } => CandleView {
            tenuring_threshold: values.tenuring_threshold,
            ..c
        },
        _ => c,
    }
}

/// Whether some event of the stream is routed to bucket `id`.
pub open spec fn touched(s: Seq<JfrEvent>, id: u64) -> bool
    decreases s.len(),
{
    s.len() > 0 && (route_id(s.last()) == id || touched(s.drop_last(), id))
}

/// The candle that folding the whole stream leaves in bucket `id`:
/// the zeroed candle, updated in stream order by exactly the events routed
/// to that bucket.
pub open spec fn candle_of(s: Seq<JfrEvent>, id: u64) -> CandleView
    decreases s.len(),
{
    if s.len() == 0 {
        init_candle()
    } else {
        let prev = candle_of(s.drop_last(), id);
        if route_id(s.last()) == id {
            spec_apply(prev, s.last(), id)
        } else {
            prev
        }
    }
}

/// A bucket no event was routed to still holds the zeroed candle.
pub proof fn lemma_untouched_init(s: Seq<JfrEvent>, id: u64)
    requires
        !touched(s, id),
    ensures
        candle_of(s, id) == init_candle(),
    decreases s.len(),
{
    if s.len() > 0 {
        lemma_untouched_init(s.drop_last(), id);
    }
}

/// Applies one event to a candle in place, exactly as [`spec_apply`] says.
pub fn apply_event(c: &mut Candle, e: &JfrEvent, id: u64)
    ensures
        final(c)@ == spec_apply(old(c)@, *e, id),
{
    c.gc_id = id;
    match e {
        JfrEvent::G1GarbageCollection { values } => {
            c.collection_type = values.type_;
        },
        JfrEvent::PromoteObjectOutsidePLAB { values } => {
            if values.tenured {
                c.tenured = c.tenured.saturating_add(values.object_size);
            }
        },
        JfrEvent::PromoteObjectInNewPLAB { values } => {
            if values.tenured {
                c.tenured = c.tenured.saturating_add(values.plab_size);
            }
        },
        JfrEvent::G1HeapSummary { values } => match values.when {
            GCWhen::Before => {
                c.young_before = values.eden_used;
                c.survivors_before = values.survivor_used;
            },
            GCWhen::After => {
                c.young_after = values.eden_used;
                c.survivors_after = values.survivor_used;
            },
        },
        JfrEvent::GCHeapSummary { values } => match values.when {
            GCWhen::Before => {
                c.before_gc = values.heap_used;
            },
            GCWhen::After => {
                c.gc_id = values.gc_id;
                c.after_gc = values.heap_used;
            },
        },
        JfrEvent::GarbageCollection { values } => {
            c.gc_name = values.name.clone();
        },
        JfrEvent::GCPhasePause { values } => {
            c.gc_pause_name = values.name.clone();
        },
        JfrEvent::YoungGarbageCollection { values } => {
            c.tenuring_threshold = values.tenuring_threshold;
        },
        _ => {},
    }
    proof {
        assert(c@ =~= spec_apply(old(c)@, *e, id));
    }
}

} // verus!
