use jfrust::events::CollectionType;
use jfrust::events::CollectionTypeSet;
use jfrust::events::G1GarbageCollection;
use jfrust::events::G1HeapSummary;
use jfrust::events::GCHeapSummary;
use jfrust::events::GCWhen;
use jfrust::events::JfrEvent;
use jfrust::events::JfrMain;
use jfrust::events::JfrRecording;
use jfrust::events::PromoteObjectOutsidePLAB;
use jfrust::events::TenuringDistribution;
use jfrust::graphs::Graphs;

fn promo_outside(gc_id: u64, object_size: u64, tenured: bool) -> JfrEvent {
    JfrEvent::PromoteObjectOutsidePLAB {
        values: PromoteObjectOutsidePLAB {
            start_time: 0,
            gc_id,
            object_size,
            tenuring_age: 1,
            tenured,
        },
    }
}

fn heap_summary(gc_id: u64, when: GCWhen, heap_used: u64) -> JfrEvent {
    JfrEvent::GCHeapSummary {
        values: GCHeapSummary { start_time: 0, when, gc_id, heap_used },
    }
}

fn g1_summary(gc_id: u64, when: GCWhen, eden_used: u64, survivor_used: u64) -> JfrEvent {
    JfrEvent::G1HeapSummary {
        values: G1HeapSummary {
            start_time: 0,
            when,
            gc_id,
            eden_used,
            eden_total: eden_used,
            survivor_used,
        },
    }
}

fn collection_type(gc_id: u64, type_: CollectionType) -> JfrEvent {
    JfrEvent::G1GarbageCollection {
        values: G1GarbageCollection { start_time: 0, gc_id, type_ },
    }
}

fn tenuring_sample(gc_id: u64, age: u64, size: u64) -> JfrEvent {
    JfrEvent::TenuringDistribution {
        values: TenuringDistribution { start_time: 0, gc_id, age, size },
    }
}

fn main_of(events: Vec<JfrEvent>) -> JfrMain {
    JfrMain { recording: JfrRecording { events } }
}

fn graphs_of(events: Vec<JfrEvent>, filter: &CollectionTypeSet) -> Graphs {
    let m = main_of(events);
    assert!(m.graphs_supported(filter));
    m.to_graphs(filter)
}

/// A full consistent cycle: two tenured promotions of 100 and 50 bytes,
/// young 1000/900, survivors 200/150, totals 5000/4800.
fn consistent_cycle_events(gc_id: u64) -> Vec<JfrEvent> {
    vec![
        promo_outside(gc_id, 100, true),
        promo_outside(gc_id, 50, true),
        g1_summary(gc_id, GCWhen::Before, 1000, 200),
        g1_summary(gc_id, GCWhen::After, 900, 150),
        heap_summary(gc_id, GCWhen::Before, 5000),
        heap_summary(gc_id, GCWhen::After, 4800),
    ]
}

#[test]
fn consistent_cycle_points() {
    let g = graphs_of(consistent_cycle_events(7), &CollectionTypeSet::empty());

    assert_eq!(g.gcs.len(), 4);
    let heap = &g.gcs[0];
    let tenured = &g.gcs[1];
    let young = &g.gcs[2];
    let survivors = &g.gcs[3];
    assert_eq!(heap.name, "heap");
    assert_eq!(tenured.name, "tenured");
    assert_eq!(young.name, "young");
    assert_eq!(survivors.name, "survivors");

    assert_eq!(heap.x, vec![0, 10]);
    assert_eq!(heap.y, vec![4000, 3750]);
    assert_eq!(tenured.y, vec![150, 150]);
    assert_eq!(young.y, vec![850, 900]);
    assert_eq!(survivors.y, vec![200, 150]);
    assert_eq!(heap.text, vec!["[7] before gc", "[7] after gc"]);
    assert_eq!(g.gcs_ticks, vec![0]);
    assert!(g.diagnostics.is_empty());
}

#[test]
fn consistent_cycle_stacks_reconstruct_totals() {
    let g = graphs_of(consistent_cycle_events(7), &CollectionTypeSet::empty());
    let sum_before: u64 = g.gcs.iter().map(|b| b.y[0]).sum();
    let sum_after: u64 = g.gcs.iter().map(|b| b.y[1]).sum();
    // before total 5000 plus survivors-before 200; after total 4800 plus
    // survivors-after 150
    assert_eq!(sum_before, 5200);
    assert_eq!(sum_after, 4950);
}

#[test]
fn inconsistent_cycle_degrades_and_records_diagnostic() {
    let events = vec![
        promo_outside(9, 500, true),
        g1_summary(9, GCWhen::Before, 200, 100),
        heap_summary(9, GCWhen::Before, 1000),
        heap_summary(9, GCWhen::After, 600),
    ];
    let g = graphs_of(events, &CollectionTypeSet::empty());

    // tenured-bytes 500 exceed the 300 reported tenure candidates: the
    // point shows the raw occupancy and zero tenured bytes.
    assert_eq!(g.gcs[0].y[0], 800);
    assert_eq!(g.gcs[1].y[0], 0);
    assert_eq!(g.gcs[2].y[0], 200);
    assert_eq!(g.gcs[3].y[0], 100);

    assert_eq!(g.diagnostics.len(), 1);
    let d = &g.diagnostics[0];
    assert_eq!(d.gc_id, 9);
    assert_eq!(d.candidates, 300);
    assert_eq!(d.tenured, 500);
    assert_eq!(
        d.message(),
        "weird, we see 300 tenure candidates but >500 tenured in gc 9"
    );
}

#[test]
fn after_total_below_tenured_degrades() {
    let events = vec![
        promo_outside(4, 50, true),
        g1_summary(4, GCWhen::Before, 100, 20),
        g1_summary(4, GCWhen::After, 10, 5),
        heap_summary(4, GCWhen::Before, 500),
        heap_summary(4, GCWhen::After, 40),
    ];
    let g = graphs_of(events, &CollectionTypeSet::empty());
    // after-total 40 is below the 50 tenured bytes: raw occupancy, zero
    // tenured.
    assert_eq!(g.gcs[0].y[1], 30);
    assert_eq!(g.gcs[1].y[1], 0);
    assert_eq!(g.gcs[2].y[1], 10);
    assert_eq!(g.gcs[3].y[1], 5);
    // the before point is consistent and unaffected
    assert_eq!(g.gcs[1].y[0], 50);
    assert!(g.diagnostics.is_empty());
}

#[test]
fn events_without_cycle_id_never_reach_output() {
    let mut events = vec![JfrEvent::Unknown];
    events.extend(consistent_cycle_events(5));
    events.push(JfrEvent::Unknown);

    let m = main_of(events);
    // the sentinel bucket exists in the candle map ...
    let candles = jfrust::aggregate::aggregate(&m.recording.events);
    assert!(candles.get(u64::MAX).is_some());
    assert_eq!(candles.len(), 2);

    // ... but no series point comes from it
    let filter = CollectionTypeSet::empty();
    assert!(m.graphs_supported(&filter));
    let g = m.to_graphs(&filter);
    assert_eq!(g.gcs_ticks.len(), 1);
    assert_eq!(g.gcs[0].text, vec!["[5] before gc", "[5] after gc"]);
}

#[test]
fn only_unrecognized_events_give_empty_series() {
    let g = graphs_of(vec![JfrEvent::Unknown, JfrEvent::Unknown], &CollectionTypeSet::empty());
    assert_eq!(g.gcs.len(), 4);
    for bar in &g.gcs {
        assert!(bar.x.is_empty());
        assert!(bar.y.is_empty());
        assert!(bar.text.is_empty());
    }
    assert!(g.gcs_ticks.is_empty());
    assert!(g.gcs_labels.is_empty());
    assert!(g.ages.is_empty());
}

#[test]
fn empty_stream_gives_empty_series() {
    let g = graphs_of(Vec::new(), &CollectionTypeSet::empty());
    assert_eq!(g.gcs.len(), 4);
    assert!(g.gcs[0].x.is_empty());
    assert!(g.gcs_ticks.is_empty());
    assert!(g.ages.is_empty());
    assert!(g.diagnostics.is_empty());
}

#[test]
fn rebuilding_gives_identical_output() {
    let mut events = consistent_cycle_events(1);
    events.extend(consistent_cycle_events(2));
    events.push(collection_type(2, CollectionType::Mixed));
    events.push(tenuring_sample(1, 3, 64));
    let m = main_of(events);
    let mut filter = CollectionTypeSet::empty();
    filter.insert(CollectionType::Mixed);

    let g1 = m.to_graphs(&filter);
    let g2 = m.to_graphs(&filter);
    assert_eq!(g1, g2);
}

#[test]
fn excluding_a_type_removes_its_cycles_and_keeps_order() {
    let mut events = Vec::new();
    events.extend(consistent_cycle_events(1));
    events.push(collection_type(1, CollectionType::Normal));
    events.extend(consistent_cycle_events(2));
    events.push(collection_type(2, CollectionType::Mixed));
    events.extend(consistent_cycle_events(3));
    events.push(collection_type(3, CollectionType::Normal));
    let m = main_of(events);

    let all = CollectionTypeSet::empty();
    assert!(m.graphs_supported(&all));
    let g = m.to_graphs(&all);
    assert_eq!(
        g.gcs[0].text,
        vec![
            "[1] before gc",
            "[1] after gc",
            "[2] before gc",
            "[2] after gc",
            "[3] before gc",
            "[3] after gc"
        ]
    );
    // tick labels align one-to-one with the emitted cycles
    assert_eq!(g.gcs_labels, vec!["Normal", "Mixed", "Normal"]);
    assert_eq!(g.gcs_labels.len(), g.gcs_ticks.len());

    let mut no_mixed = CollectionTypeSet::empty();
    no_mixed.insert(CollectionType::Mixed);
    let g = m.to_graphs(&no_mixed);
    // every point of the Mixed cycle is gone, the others keep their
    // relative order and are re-spaced from zero
    assert_eq!(
        g.gcs[0].text,
        vec!["[1] before gc", "[1] after gc", "[3] before gc", "[3] after gc"]
    );
    assert_eq!(g.gcs[0].x, vec![0, 10, 23, 33]);
    assert_eq!(g.gcs_ticks, vec![0, 23]);
    assert_eq!(g.gcs_labels, vec!["Normal", "Normal"]);
}

#[test]
fn tenuring_grouping_is_order_sensitive() {
    // cycle 1, cycle 2, cycle 1 in stream order: three series, not two
    let events = vec![
        tenuring_sample(1, 1, 10),
        tenuring_sample(2, 2, 20),
        tenuring_sample(1, 3, 30),
    ];
    let g = graphs_of(events, &CollectionTypeSet::empty());
    assert_eq!(g.ages.len(), 3);
    assert_eq!(g.ages[0].ages, vec![1]);
    assert_eq!(g.ages[0].sizes, vec![10]);
    assert_eq!(g.ages[1].ages, vec![2]);
    assert_eq!(g.ages[1].sizes, vec![20]);
    assert_eq!(g.ages[2].ages, vec![3]);
    assert_eq!(g.ages[2].sizes, vec![30]);
}

#[test]
fn tenuring_contiguous_runs_merge() {
    let events = vec![
        tenuring_sample(1, 1, 10),
        tenuring_sample(1, 2, 20),
        // a foreign event between samples does not split the run: the
        // grouping works on the filtered sample sequence
        heap_summary(1, GCWhen::Before, 100),
        tenuring_sample(1, 3, 30),
        tenuring_sample(2, 1, 40),
    ];
    let g = graphs_of(events, &CollectionTypeSet::empty());
    assert_eq!(g.ages.len(), 2);
    assert_eq!(g.ages[0].ages, vec![1, 2, 3]);
    assert_eq!(g.ages[0].sizes, vec![10, 20, 30]);
    assert_eq!(g.ages[1].ages, vec![1]);
    assert_eq!(g.ages[1].sizes, vec![40]);
}

#[test]
fn cycles_come_out_in_ascending_id_order() {
    let mut events = Vec::new();
    events.extend(consistent_cycle_events(9));
    events.extend(consistent_cycle_events(2));
    events.extend(consistent_cycle_events(5));
    let g = graphs_of(events, &CollectionTypeSet::empty());
    assert_eq!(
        g.gcs[0].text,
        vec![
            "[2] before gc",
            "[2] after gc",
            "[5] before gc",
            "[5] after gc",
            "[9] before gc",
            "[9] after gc"
        ]
    );
    assert_eq!(g.gcs[0].x, vec![0, 10, 23, 33, 46, 56]);
}

#[test]
fn unknown_type_falls_back_to_pause_name_in_tick_labels() {
    let mut events = consistent_cycle_events(1);
    events.push(JfrEvent::GCPhasePause {
        values: jfrust::events::GCPhasePause {
            start_time: 0,
            gc_id: 1,
            name: String::from("Pause Young"),
        },
    });
    let g = graphs_of(events, &CollectionTypeSet::empty());
    assert_eq!(g.gcs_labels, vec!["Pause Young"]);
}

#[test]
fn unsupported_recording_is_reported() {
    // before-total below the young occupancy: the subtraction would
    // underflow, so charting is refused up front
    let events = vec![
        g1_summary(1, GCWhen::Before, 1000, 0),
        heap_summary(1, GCWhen::Before, 500),
    ];
    let m = main_of(events);
    assert!(!m.graphs_supported(&CollectionTypeSet::empty()));
    // excluding the cycle makes the rest (nothing) chartable again
    let mut filter = CollectionTypeSet::empty();
    filter.insert(CollectionType::Unknown);
    assert!(m.graphs_supported(&filter));
}
