//! The event model: a closed union of the recognized GC telemetry event
//! kinds plus a catch-all for unrecognized ones.
//!
//! Every recognized kind carries its start timestamp as milliseconds since
//! the Unix epoch (UTC) and, except for the catch-all, a cycle id; duration
//! fields are nanoseconds. The surrounding program decodes the JSON event
//! log into these records before handing them to the library.

use vstd::prelude::*;

verus! {

/// Phase marker of a heap summary: taken before or after the collection.
#[derive(Debug, Clone, Copy, PartialEq, Eq, Structural)]
pub enum GCWhen {
    Before,
    After,
}

/// Classification of a collection cycle, as reported by the collector.
#[derive(Debug, Clone, Copy, PartialEq, Eq, Structural)]
pub enum CollectionType {
    Normal,
    PrepareMixed,
    ConcurrentStart,
    Mixed,
    Unknown,
}

impl CollectionType {
    /// Which collection type a textual filter value names, using the names
    /// the recording itself uses; any other value names none.
    pub open spec fn spec_from_name(s: Seq<char>) -> Option<CollectionType> {
        if s == "Normal"@ {
            Some(CollectionType::Normal)
        } else if s == "Prepare Mixed"@ {
            Some(CollectionType::PrepareMixed)
        } else if s == "Concurrent Start"@ {
            Some(CollectionType::ConcurrentStart)
        } else if s == "Mixed"@ {
            Some(CollectionType::Mixed)
        } else if s == "Unknown"@ {
            Some(CollectionType::Unknown)
        } else {
            None
        }
    }

    /// Resolves a textual filter value to the collection type it names;
    /// unrecognized values resolve to none and are thereby ignored.
    pub fn from_name(s: &str) -> (r: Option<CollectionType>)
        ensures
            r == Self::spec_from_name(s@),
    {
        let t: String = s.to_owned();
        if t.eq(&"Normal".to_owned()) {
            Some(CollectionType::Normal)
        } else if t.eq(&"Prepare Mixed".to_owned()) {
            Some(CollectionType::PrepareMixed)
        } else if t.eq(&"Concurrent Start".to_owned()) {
            Some(CollectionType::ConcurrentStart)
        } else if t.eq(&"Mixed".to_owned()) {
            Some(CollectionType::Mixed)
        } else if t.eq(&"Unknown".to_owned()) {
            Some(CollectionType::Unknown)
        } else {
            None
        }
    }
}

/// A set of collection types, used to exclude whole cycles from the output
/// series.
#[derive(Debug, Clone, Copy, PartialEq, Eq, Structural)]
pub struct CollectionTypeSet {
    pub normal: bool,
    pub prepare_mixed: bool,
    pub concurrent_start: bool,
    pub mixed: bool,
    pub unknown: bool,
}

impl CollectionTypeSet {
    /// Whether the set holds the given collection type.
    pub open spec fn spec_contains(&self, t: CollectionType) -> bool {
        match t {
            CollectionType::Normal => self.normal,
            CollectionType::PrepareMixed => self.prepare_mixed,
            CollectionType::ConcurrentStart => self.concurrent_start,
            CollectionType::Mixed => self.mixed,
            CollectionType::Unknown => self.unknown,
        }
    }

    /// The empty set.
    pub fn empty() -> (s: Self)
        ensures
            forall|t: CollectionType| !s.spec_contains(t),
    {
        CollectionTypeSet {
            normal: false,
            prepare_mixed: false,
            concurrent_start: false,
            mixed: false,
            unknown: false,
        }
    }

    /// Adds one collection type to the set.
    pub fn insert(&mut self, t: CollectionType)
        ensures
            forall|t2: CollectionType|
                final(self).spec_contains(t2) == (t2 == t || old(self).spec_contains(t2)),
    {
        match t {
            CollectionType::Normal => self.normal = true,
            CollectionType::PrepareMixed => self.prepare_mixed = true,
            CollectionType::ConcurrentStart => self.concurrent_start = true,
            CollectionType::Mixed => self.mixed = true,
            CollectionType::Unknown => self.unknown = true,
        }
    }

    /// Whether the set holds the given collection type.
    pub fn contains(&self, t: CollectionType) -> (b: bool)
        ensures
            b == self.spec_contains(t),
    {
        match t {
            CollectionType::Normal => self.normal,
            CollectionType::PrepareMixed => self.prepare_mixed,
            CollectionType::ConcurrentStart => self.concurrent_start,
            CollectionType::Mixed => self.mixed,
            CollectionType::Unknown => self.unknown,
        }
    }
}

impl Default for CollectionType {
    fn default() -> (t: Self)
        ensures
            t == CollectionType::Unknown,
    {
        CollectionType::Unknown
    }
}

/// One tenuring-distribution sample: how many bytes sit at a given age.
#[derive(Debug, Clone, PartialEq, Eq, Structural)]
pub struct TenuringDistribution {
    pub start_time: i64,
    pub gc_id: u64,
    pub age: u64,
    pub size: u64,
}

/// Promotion of a single object out of the young generation, accounted
/// outside any promotion buffer.
#[derive(Debug, Clone, PartialEq, Eq, Structural)]
pub struct PromoteObjectOutsidePLAB {
    pub start_time: i64,
    pub gc_id: u64,
    pub object_size: u64,
    pub tenuring_age: u64,
    pub tenured: bool,
}

/// Promotion that allocated a fresh promotion buffer; the whole buffer
/// counts towards tenured bytes when the promotion is tenured.
#[derive(Debug, Clone, PartialEq, Eq, Structural)]
pub struct PromoteObjectInNewPLAB {
    pub start_time: i64,
    pub gc_id: u64,
    pub object_size: u64,
    pub tenuring_age: u64,
    pub tenured: bool,
    pub plab_size: u64,
}

/// Whole-heap usage snapshot, taken before or after a cycle.
#[derive(Debug, Clone, PartialEq, Eq, Structural)]
pub struct GCHeapSummary {
    pub start_time: i64,
    pub when: GCWhen,
    pub gc_id: u64,
    pub heap_used: u64,
}

/// Region-based young-generation snapshot: eden and survivor usage.
#[derive(Debug, Clone, PartialEq, Eq, Structural)]
pub struct G1HeapSummary {
    pub start_time: i64,
    pub when: GCWhen,
    pub gc_id: u64,
    pub eden_used: u64,
    pub eden_total: u64,
    pub survivor_used: u64,
}

/// An old-generation collection cycle.
#[derive(Debug, Clone, PartialEq, Eq, Structural)]
pub struct OldGarbageCollection {
    pub start_time: i64,
    pub duration: u64,
    pub gc_id: u64,
}

/// A young-generation collection cycle, with the tenuring threshold it ran
/// under.
#[derive(Debug, Clone, PartialEq, Eq, Structural)]
pub struct YoungGarbageCollection {
    pub start_time: i64,
    pub duration: u64,
    pub gc_id: u64,
    pub tenuring_threshold: u64,
}

/// The named summary of a whole collection: collector name, cause and pause
/// accounting.
#[derive(Debug, Clone, PartialEq, Eq)]
pub struct GarbageCollection {
    pub start_time: i64,
    pub duration: u64,
    pub gc_id: u64,
    pub name: String,
    pub cause: String,
    pub sum_of_pauses: u64,
    pub longest_pauses: u64,
}

/// One named pause phase within a collection.
#[derive(Debug, Clone, PartialEq, Eq)]
pub struct GCPhasePause {
    pub start_time: i64,
    pub gc_id: u64,
    pub name: String,
}

/// The collection-type classification event.
#[derive(Debug, Clone, PartialEq, Eq, Structural)]
pub struct G1GarbageCollection {
    pub start_time: i64,
    pub gc_id: u64,
    pub type_: CollectionType,
}

/// One GC telemetry event. Every recognized kind yields a cycle id; the
/// catch-all [`JfrEvent::Unknown`] never does.
#[derive(Debug, Clone, PartialEq, Eq)]
pub enum JfrEvent {
    TenuringDistribution { values: TenuringDistribution },
    GCHeapSummary { values: GCHeapSummary },
    G1HeapSummary { values: G1HeapSummary },
    G1GarbageCollection { values: G1GarbageCollection },
    GarbageCollection { values: GarbageCollection },
    GCPhasePause { values: GCPhasePause },
    OldGarbageCollection { values: OldGarbageCollection },
    YoungGarbageCollection { values: YoungGarbageCollection },
    PromoteObjectOutsidePLAB { values: PromoteObjectOutsidePLAB },
    PromoteObjectInNewPLAB { values: PromoteObjectInNewPLAB },
    Unknown,
}

impl JfrEvent {
    /// The cycle id an event belongs to: every recognized kind carries one,
    /// the unrecognized catch-all never does.
    pub open spec fn spec_gc_id(&self) -> Option<u64> {
        match self {
            JfrEvent::TenuringDistribution { values } => Some(values.gc_id),
            JfrEvent::GCHeapSummary { values } => Some(values.gc_id),
            JfrEvent::G1HeapSummary { values } => Some(values.gc_id),
            JfrEvent::G1GarbageCollection { values } => Some(values.gc_id),
            JfrEvent::GarbageCollection { values } => Some(values.gc_id),
            JfrEvent::GCPhasePause { values } => Some(values.gc_id),
            JfrEvent::OldGarbageCollection { values } => Some(values.gc_id),
            JfrEvent::YoungGarbageCollection { values } => Some(values.gc_id),
            JfrEvent::PromoteObjectOutsidePLAB { values } => Some(values.gc_id),
            JfrEvent::PromoteObjectInNewPLAB { values } => Some(values.gc_id),
            JfrEvent::Unknown => None,
        }
    }

    pub fn gc_id(&self) -> (r: Option<u64>)
        ensures
            r == self.spec_gc_id(),
    {
        match self {
            JfrEvent::TenuringDistribution { values } => Some(values.gc_id),
            JfrEvent::GCHeapSummary { values } => Some(values.gc_id),
            JfrEvent::G1HeapSummary { values } => Some(values.gc_id),
            JfrEvent::G1GarbageCollection { values } => Some(values.gc_id),
            JfrEvent::GarbageCollection { values } => Some(values.gc_id),
            JfrEvent::GCPhasePause { values } => Some(values.gc_id),
            JfrEvent::OldGarbageCollection { values } => Some(values.gc_id),
            JfrEvent::YoungGarbageCollection { values } => Some(values.gc_id),
            JfrEvent::PromoteObjectOutsidePLAB { values } => Some(values.gc_id),
            JfrEvent::PromoteObjectInNewPLAB { values } => Some(values.gc_id),
            JfrEvent::Unknown => None,
        }
    }
}

/// The bucket key an event is routed to: its cycle id, or the sentinel
/// bucket `u64::MAX` when it carries none.
pub open spec fn route_id(e: JfrEvent) -> u64 {
    match e.spec_gc_id() {
        Some(id) => id,
        None => u64::MAX,
    }
}

/// The ordered event log, as decoded from one recording.
#[derive(Debug, Clone, PartialEq, Eq)]
pub struct JfrRecording {
    pub events: Vec<JfrEvent>,
}

/// The root of one decoded recording.
#[derive(Debug, Clone, PartialEq, Eq)]
pub struct JfrMain {
    pub recording: JfrRecording,
}

} // verus!
