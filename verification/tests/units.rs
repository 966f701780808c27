use jfrust::aggregate::aggregate;
use jfrust::args::consume_flag;
use jfrust::args::consume_opt;
use jfrust::candle::Candle;
use jfrust::events::CollectionType;
use jfrust::events::CollectionTypeSet;
use jfrust::events::G1GarbageCollection;
use jfrust::events::G1HeapSummary;
use jfrust::events::GCHeapSummary;
use jfrust::events::GCPhasePause;
use jfrust::events::GCWhen;
use jfrust::events::GarbageCollection;
use jfrust::events::JfrEvent;
use jfrust::events::OldGarbageCollection;
use jfrust::events::PromoteObjectInNewPLAB;
use jfrust::events::PromoteObjectOutsidePLAB;
use jfrust::events::TenuringDistribution;
use jfrust::events::YoungGarbageCollection;
use jfrust::text::point_label;
use jfrust::text::u64_to_string;

#[test]
fn every_recognized_kind_yields_its_cycle_id() {
    let cases = vec![
        JfrEvent::TenuringDistribution {
            values: TenuringDistribution { start_time: 0, gc_id: 1, age: 2, size: 3 },
        },
        JfrEvent::GCHeapSummary {
            values: GCHeapSummary { start_time: 0, when: GCWhen::Before, gc_id: 1, heap_used: 9 },
        },
        JfrEvent::G1HeapSummary {
            values: G1HeapSummary {
                start_time: 0,
                when: GCWhen::After,
                gc_id: 1,
                eden_used: 4,
                eden_total: 8,
                survivor_used: 2,
            },
        },
        JfrEvent::G1GarbageCollection {
            values: G1GarbageCollection { start_time: 0, gc_id: 1, type_: CollectionType::Normal },
        },
        JfrEvent::GarbageCollection {
            values: GarbageCollection {
                start_time: 0,
                duration: 7,
                gc_id: 1,
                name: String::from("G1Old"),
                cause: String::from("G1 Evacuation Pause"),
                sum_of_pauses: 5,
                longest_pauses: 3,
            },
        },
        JfrEvent::GCPhasePause {
            values: GCPhasePause { start_time: 0, gc_id: 1, name: String::from("Pause Young") },
        },
        JfrEvent::OldGarbageCollection {
            values: OldGarbageCollection { start_time: 0, duration: 7, gc_id: 1 },
        },
        JfrEvent::YoungGarbageCollection {
            values: YoungGarbageCollection {
                start_time: 0,
                duration: 7,
                gc_id: 1,
                tenuring_threshold: 6,
            },
        },
        JfrEvent::PromoteObjectOutsidePLAB {
            values: PromoteObjectOutsidePLAB {
                start_time: 0,
                gc_id: 1,
                object_size: 64,
                tenuring_age: 2,
                tenured: true,
            },
        },
        JfrEvent::PromoteObjectInNewPLAB {
            values: PromoteObjectInNewPLAB {
                start_time: 0,
                gc_id: 1,
                object_size: 64,
                tenuring_age: 2,
                tenured: false,
                plab_size: 4096,
            },
        },
    ];
    for e in &cases {
        assert_eq!(e.gc_id(), Some(1));
    }
    assert_eq!(JfrEvent::Unknown.gc_id(), None);
}

#[test]
fn filter_names_resolve_like_the_recording_writes_them() {
    assert_eq!(CollectionType::from_name("Normal"), Some(CollectionType::Normal));
    assert_eq!(CollectionType::from_name("Prepare Mixed"), Some(CollectionType::PrepareMixed));
    assert_eq!(
        CollectionType::from_name("Concurrent Start"),
        Some(CollectionType::ConcurrentStart)
    );
    assert_eq!(CollectionType::from_name("Mixed"), Some(CollectionType::Mixed));
    assert_eq!(CollectionType::from_name("Unknown"), Some(CollectionType::Unknown));
    // unrecognized values are ignored rather than rejected
    assert_eq!(CollectionType::from_name("PrepareMixed"), None);
    assert_eq!(CollectionType::from_name(""), None);
    assert_eq!(CollectionType::from_name("normal"), None);
}

#[test]
fn collection_type_set_insert_and_contains() {
    let mut s = CollectionTypeSet::empty();
    assert!(!s.contains(CollectionType::Mixed));
    s.insert(CollectionType::Mixed);
    s.insert(CollectionType::Unknown);
    assert!(s.contains(CollectionType::Mixed));
    assert!(s.contains(CollectionType::Unknown));
    assert!(!s.contains(CollectionType::Normal));
    assert!(!s.contains(CollectionType::PrepareMixed));
    assert!(!s.contains(CollectionType::ConcurrentStart));
}

#[test]
fn decimal_notation_is_exact() {
    assert_eq!(u64_to_string(0), "0");
    assert_eq!(u64_to_string(7), "7");
    assert_eq!(u64_to_string(10), "10");
    assert_eq!(u64_to_string(1234567890), "1234567890");
    assert_eq!(u64_to_string(u64::MAX), "18446744073709551615");
}

#[test]
fn point_labels_are_exact() {
    assert_eq!(point_label(7, false), "[7] before gc");
    assert_eq!(point_label(7, true), "[7] after gc");
    assert_eq!(point_label(120, false), "[120] before gc");
}

#[test]
fn title_names_the_collection_type_or_falls_back() {
    let mut c = Candle::default();
    c.gc_pause_name = String::from("Pause Young");
    assert_eq!(c.title(), "Pause Young");
    c.collection_type = CollectionType::Normal;
    assert_eq!(c.title(), "Normal");
    c.collection_type = CollectionType::PrepareMixed;
    assert_eq!(c.title(), "PrepareMixed");
    c.collection_type = CollectionType::ConcurrentStart;
    assert_eq!(c.title(), "ConcurrentStart");
    c.collection_type = CollectionType::Mixed;
    assert_eq!(c.title(), "Mixed");
}

fn promo_outside(gc_id: u64, object_size: u64, tenured: bool) -> JfrEvent {
    JfrEvent::PromoteObjectOutsidePLAB {
        values: PromoteObjectOutsidePLAB {
            start_time: 0,
            gc_id,
            object_size,
            tenuring_age: 1,
            tenured,
        },
    }
}

fn promo_new_plab(gc_id: u64, plab_size: u64, tenured: bool) -> JfrEvent {
    JfrEvent::PromoteObjectInNewPLAB {
        values: PromoteObjectInNewPLAB {
            start_time: 0,
            gc_id,
            object_size: 1,
            tenuring_age: 1,
            tenured,
            plab_size,
        },
    }
}

#[test]
fn aggregation_fills_one_candle_per_cycle() {
    let events = vec![
        promo_outside(3, 100, true),
        promo_outside(3, 40, false),
        promo_new_plab(3, 4096, true),
        JfrEvent::G1HeapSummary {
            values: G1HeapSummary {
                start_time: 0,
                when: GCWhen::Before,
                gc_id: 3,
                eden_used: 5000,
                eden_total: 8192,
                survivor_used: 300,
            },
        },
        JfrEvent::G1HeapSummary {
            values: G1HeapSummary {
                start_time: 0,
                when: GCWhen::After,
                gc_id: 3,
                eden_used: 100,
                eden_total: 8192,
                survivor_used: 80,
            },
        },
        JfrEvent::GCHeapSummary {
            values: GCHeapSummary {
                start_time: 0,
                when: GCWhen::Before,
                gc_id: 3,
                heap_used: 9000,
            },
        },
        JfrEvent::GCHeapSummary {
            values: GCHeapSummary { start_time: 0, when: GCWhen::After, gc_id: 3, heap_used: 7000 },
        },
        JfrEvent::GarbageCollection {
            values: GarbageCollection {
                start_time: 0,
                duration: 7,
                gc_id: 3,
                name: String::from("G1New"),
                cause: String::from("Allocation Failure"),
                sum_of_pauses: 5,
                longest_pauses: 3,
            },
        },
        JfrEvent::GCPhasePause {
            values: GCPhasePause { start_time: 0, gc_id: 3, name: String::from("Pause Young") },
        },
        JfrEvent::YoungGarbageCollection {
            values: YoungGarbageCollection {
                start_time: 0,
                duration: 7,
                gc_id: 3,
                tenuring_threshold: 6,
            },
        },
        JfrEvent::G1GarbageCollection {
            values: G1GarbageCollection { start_time: 0, gc_id: 3, type_: CollectionType::Normal },
        },
        JfrEvent::G1GarbageCollection {
            values: G1GarbageCollection { start_time: 0, gc_id: 3, type_: CollectionType::Mixed },
        },
    ];
    let m = aggregate(&events);
    assert_eq!(m.len(), 1);
    let c = m.get(3).unwrap();
    assert_eq!(c.gc_id, 3);
    // untenured promotions are ignored; the new-buffer form counts the
    // whole buffer
    assert_eq!(c.tenured, 100 + 4096);
    assert_eq!(c.young_before, 5000);
    assert_eq!(c.survivors_before, 300);
    assert_eq!(c.young_after, 100);
    assert_eq!(c.survivors_after, 80);
    assert_eq!(c.before_gc, 9000);
    assert_eq!(c.after_gc, 7000);
    assert_eq!(c.gc_name, "G1New");
    assert_eq!(c.gc_pause_name, "Pause Young");
    assert_eq!(c.tenuring_threshold, 6);
    // the collection type is overwritten: the last write wins
    assert_eq!(c.collection_type, CollectionType::Mixed);
}

#[test]
fn candle_map_is_keyed_and_ordered_by_cycle_id() {
    let events = vec![
        promo_outside(9, 1, true),
        promo_outside(2, 1, true),
        promo_outside(5, 1, true),
        promo_outside(2, 1, true),
    ];
    let m = aggregate(&events);
    assert_eq!(m.len(), 3);
    assert_eq!(m.candle(0).gc_id, 2);
    assert_eq!(m.candle(1).gc_id, 5);
    assert_eq!(m.candle(2).gc_id, 9);
    assert_eq!(m.get(2).unwrap().tenured, 2);
    assert_eq!(m.get(5).unwrap().tenured, 1);
    assert!(m.get(4).is_none());
}

#[test]
fn tenured_accumulation_saturates_instead_of_overflowing() {
    let events = vec![promo_outside(1, u64::MAX, true), promo_outside(1, 100, true)];
    let m = aggregate(&events);
    assert_eq!(m.get(1).unwrap().tenured, u64::MAX);
}

#[test]
fn events_without_cycle_id_land_in_the_sentinel_bucket() {
    let events = vec![JfrEvent::Unknown];
    let m = aggregate(&events);
    assert_eq!(m.len(), 1);
    assert_eq!(m.candle(0).gc_id, u64::MAX);
}

#[test]
fn consume_flag_removes_the_first_match() {
    let mut args: Vec<String> = vec!["-v".into(), "a".into(), "-v".into()];
    assert!(consume_flag(&mut args, "-v"));
    assert_eq!(args, vec!["a".to_string(), "-v".to_string()]);
    assert!(!consume_flag(&mut args, "-x"));
    assert_eq!(args, vec!["a".to_string(), "-v".to_string()]);
}

#[test]
fn consume_opt_removes_the_option_with_its_value() {
    let mut args: Vec<String> = vec!["in.md".into(), "-o".into(), "out".into(), "x.md".into()];
    assert_eq!(consume_opt(&mut args, "-o"), Some("out".to_string()));
    assert_eq!(args, vec!["in.md".to_string(), "x.md".to_string()]);
    assert_eq!(consume_opt(&mut args, "-b"), None);
    assert_eq!(args, vec!["in.md".to_string(), "x.md".to_string()]);
}
