use std::collections::BTreeMap;
use std::sync::Arc;

use prometheus::Registry;
use source_types::metrics::family::{Family, RegisterError};
use source_types::metrics::float_gauge::FloatGaugeVec;
use source_types::metrics::int_counter::IntCounterVec;
use source_types::metrics::int_gauge::IntGaugeVec;
use source_types::metrics::uint_counter::UIntCounterVec;
use source_types::metrics::uint_gauge::UIntGaugeVec;
use source_types::metrics::vector::MetricVector;
use source_types::{
    GlobalId, MzOffset, OffsetCommitMetrics, PartitionId, PartitionMap, PartitionMetricDefs,
    PartitionMetrics, PartitionProgress, ShardId, SourceBaseMetrics, SourceMetricDefs, SourceMetrics,
    SourcePersistSinkMetrics, SourceReaderMetrics, Timestamp, UpsertMetricDefs, UpsertMetrics,
};

const NAMES: [&str; 4] = ["a", "b", "c", "d"];

fn family<V: MetricVector, const N: usize>(registry: &Registry, name: &str) -> Family<V, N> {
    let mut labels = [""; N];
    labels.copy_from_slice(&NAMES[..N]);
    match Family::register(registry, name, "help", &labels) {
        Ok(family) => family,
        Err(error) => panic!("{} cannot be registered: {:?}", name, error),
    }
}

fn base(r: &Registry) -> SourceBaseMetrics {
    SourceBaseMetrics {
        source_specific: Arc::new(SourceMetricDefs {
            capability: family(r, "capability"),
            resume_upper: family(r, "resume_upper"),
            inmemory_remap_bindings: family(r, "inmemory_remap_bindings"),
            progress: family(r, "progress"),
            row_inserts: family(r, "row_inserts"),
            row_retractions: family(r, "row_retractions"),
            error_inserts: family(r, "error_inserts"),
            error_retractions: family(r, "error_retractions"),
            persist_sink_processed_batches: family(r, "persist_sink_processed_batches"),
            offset_commit_failures: family(r, "offset_commit_failures"),
        }),
        partition_specific: Arc::new(PartitionMetricDefs {
            offset_ingested: family(r, "offset_ingested"),
            offset_received: family(r, "offset_received"),
            closed_ts: family(r, "closed_ts"),
            messages_ingested: family(r, "messages_ingested"),
        }),
        upsert_specific: Arc::new(UpsertMetricDefs {
            rehydration_latency: family(r, "rehydration_latency"),
            rehydration_total: family(r, "rehydration_total"),
            rehydration_updates: family(r, "rehydration_updates"),
            rocksdb_autospill_in_use: family(r, "rocksdb_autospill_in_use"),
            merge_snapshot_updates: family(r, "merge_snapshot_updates"),
            merge_snapshot_inserts: family(r, "merge_snapshot_inserts"),
            merge_snapshot_deletes: family(r, "merge_snapshot_deletes"),
            upsert_inserts: family(r, "upsert_inserts"),
            upsert_updates: family(r, "upsert_updates"),
            upsert_deletes: family(r, "upsert_deletes"),
            multi_get_size: family(r, "multi_get_size"),
            multi_get_result_bytes: family(r, "multi_get_result_bytes"),
            multi_get_result_count: family(r, "multi_get_result_count"),
            multi_put_size: family(r, "multi_put_size"),
            legacy_value_errors: family(r, "legacy_value_errors"),
            rocksdb_multi_get_size: family(r, "rocksdb_multi_get_size"),
            rocksdb_multi_get_result_count: family(r, "rocksdb_multi_get_result_count"),
            rocksdb_multi_get_result_bytes: family(r, "rocksdb_multi_get_result_bytes"),
            rocksdb_multi_get_count: family(r, "rocksdb_multi_get_count"),
            rocksdb_multi_put_count: family(r, "rocksdb_multi_put_count"),
            rocksdb_multi_put_size: family(r, "rocksdb_multi_put_size"),
        }),
    }
}

fn id(text: &str) -> GlobalId {
    GlobalId { text: text.to_string() }
}

fn partition(text: &str) -> PartitionId {
    PartitionId { text: text.to_string() }
}

/// What is exported: for each family that has metrics, their label values and values.
fn exported(registry: &Registry) -> BTreeMap<String, Vec<(Vec<String>, f64)>> {
    let mut families = BTreeMap::new();
    for family in registry.gather() {
        let mut metrics = Vec::new();
        for metric in family.get_metric() {
            let labels: Vec<String> =
                metric.get_label().iter().map(|pair| pair.get_value().to_string()).collect();
            let value = match family.get_field_type() {
                prometheus::proto::MetricType::COUNTER => metric.get_counter().get_value(),
                _ => metric.get_gauge().get_value(),
            };
            metrics.push((labels, value));
        }
        families.insert(family.get_name().to_string(), metrics);
    }
    families
}

/// The metrics of one family.
fn metrics_of(registry: &Registry, name: &str) -> Vec<(Vec<String>, f64)> {
    exported(registry).remove(name).unwrap_or_default()
}

fn metric(labels: &[&str], value: f64) -> (Vec<String>, f64) {
    (labels.iter().map(|label| label.to_string()).collect(), value)
}

fn progress(
    name: &str,
    offset: u64,
    timestamp: u64,
    count: i64,
) -> (PartitionId, PartitionProgress) {
    (partition(name), (MzOffset { offset }, Timestamp { internal: timestamp }, count))
}

fn batch(updates: Vec<(PartitionId, PartitionProgress)>) -> PartitionMap<PartitionProgress> {
    let mut batch = PartitionMap::new();
    for (id, progress) in updates {
        assert!(batch.insert(id, progress).is_none());
    }
    batch
}

fn metrics_for<'a>(metrics: &'a SourceMetrics, name: &str) -> &'a PartitionMetrics {
    metrics.partition_metrics.get(&partition(name)).expect("the partition has metrics")
}

fn error_of<V: MetricVector, const N: usize>(res: Result<Family<V, N>, RegisterError>) -> RegisterError {
    match res {
        Ok(_) => panic!("registered"),
        Err(error) => error,
    }
}

#[test]
fn sink_metrics_carry_source_output_shard_and_worker() {
    let registry = Registry::new();
    let base = base(&registry);
    let shard = ShardId { text: "s-42".to_string() };
    let metrics = SourcePersistSinkMetrics::new(&base, id("u9"), id("u7"), 11, &shard, 2);

    let all = exported(&registry);
    let names: Vec<&str> = all.keys().map(|name| name.as_str()).collect();
    assert_eq!(
        names,
        vec![
            "error_inserts",
            "error_retractions",
            "persist_sink_processed_batches",
            "progress",
            "row_inserts",
            "row_retractions",
        ]
    );
    for metrics in all.values() {
        assert_eq!(*metrics, vec![metric(&["u7", "2", "s-42", "11"], 0.0)]);
    }
    drop(metrics);
    assert!(exported(&registry).is_empty());
}

#[test]
fn sinks_of_different_workers_are_told_apart() {
    let registry = Registry::new();
    let base = base(&registry);
    let shard = ShardId { text: "s".to_string() };
    let first = SourcePersistSinkMetrics::new(&base, id("u1"), id("u1"), 0, &shard, 0);
    let second = SourcePersistSinkMetrics::new(&base, id("u1"), id("u1"), 1, &shard, 0);
    assert_eq!(
        metrics_of(&registry, "progress"),
        vec![metric(&["u1", "0", "s", "0"], 0.0), metric(&["u1", "0", "s", "1"], 0.0)]
    );
    drop(first);
    assert_eq!(metrics_of(&registry, "progress"), vec![metric(&["u1", "0", "s", "1"], 0.0)]);
    drop(second);
    assert!(exported(&registry).is_empty());
}

#[test]
fn source_metrics_have_labels_of_their_own() {
    let registry = Registry::new();
    let base = base(&registry);
    let metrics = SourceMetrics::new(&base, "orders", id("u5"), "3");
    let all = exported(&registry);
    assert_eq!(all.len(), 3);
    assert_eq!(all["capability"], vec![metric(&["orders", "u5", "3"], 0.0)]);
    assert_eq!(all["resume_upper"], vec![metric(&["u5"], 0.0)]);
    assert_eq!(all["inmemory_remap_bindings"], vec![metric(&["u5", "3"], 0.0)]);
    assert!(metrics.partition_metrics.len() == 0);
    assert_eq!(metrics.source_name, "orders");
    assert_eq!(metrics.source_id, id("u5"));
    drop(metrics);
    assert!(exported(&registry).is_empty());
}

#[test]
fn partition_metrics_start_at_zero() {
    let registry = Registry::new();
    let base = base(&registry);
    let metrics = PartitionMetrics::new(&base, "orders", &id("u5"), &partition("12"));
    let all = exported(&registry);
    let names: Vec<&str> = all.keys().map(|name| name.as_str()).collect();
    assert_eq!(names, vec!["closed_ts", "messages_ingested", "offset_ingested", "offset_received"]);
    for metrics in all.values() {
        assert_eq!(*metrics, vec![metric(&["orders", "u5", "12"], 0.0)]);
    }
    assert_eq!(metrics.highest_offset, 0);
    assert_eq!(metrics.last_offset, 0);
    assert_eq!(metrics.last_timestamp, 0);
}

#[test]
fn progress_is_recorded_for_each_partition() {
    let registry = Registry::new();
    let base = base(&registry);
    let mut metrics = SourceMetrics::new(&base, "orders", id("u5"), "0");
    metrics.record_partition_offsets(batch(vec![
        progress("p0", 100, 1_000, 40),
        progress("p1", 7, 1_001, 7),
    ]));
    assert_eq!(
        metrics_of(&registry, "offset_received"),
        vec![metric(&["orders", "u5", "p0"], 100.0), metric(&["orders", "u5", "p1"], 7.0)]
    );
    assert_eq!(
        metrics_of(&registry, "offset_ingested"),
        vec![metric(&["orders", "u5", "p0"], 100.0), metric(&["orders", "u5", "p1"], 7.0)]
    );
    assert_eq!(
        metrics_of(&registry, "messages_ingested"),
        vec![metric(&["orders", "u5", "p0"], 40.0), metric(&["orders", "u5", "p1"], 7.0)]
    );
    assert_eq!(
        metrics_of(&registry, "closed_ts"),
        vec![metric(&["orders", "u5", "p0"], 0.0), metric(&["orders", "u5", "p1"], 0.0)]
    );
    assert_eq!(metrics_for(&metrics, "p0").last_offset, 100);
    assert_eq!(metrics_for(&metrics, "p0").last_timestamp, 1_000);
    assert_eq!(metrics_for(&metrics, "p1").last_offset, 7);
    assert_eq!(metrics_for(&metrics, "p1").last_timestamp, 1_001);

    metrics.record_partition_offsets(batch(vec![
        progress("p1", 9, 1_005, 2),
        progress("p2", 1, i64::MAX as u64, 0),
    ]));
    assert_eq!(
        metrics_of(&registry, "offset_received"),
        vec![
            metric(&["orders", "u5", "p0"], 100.0),
            metric(&["orders", "u5", "p1"], 9.0),
            metric(&["orders", "u5", "p2"], 1.0),
        ]
    );
    assert_eq!(
        metrics_of(&registry, "messages_ingested"),
        vec![
            metric(&["orders", "u5", "p0"], 40.0),
            metric(&["orders", "u5", "p1"], 9.0),
            metric(&["orders", "u5", "p2"], 0.0),
        ]
    );
    assert_eq!(metrics_for(&metrics, "p0").last_offset, 100);
    assert_eq!(metrics_for(&metrics, "p1").last_offset, 9);
    assert_eq!(metrics_for(&metrics, "p1").last_timestamp, 1_005);
    assert_eq!(metrics_for(&metrics, "p2").last_timestamp, i64::MAX);

    drop(metrics);
    assert!(exported(&registry).is_empty());
}

#[test]
fn an_empty_batch_changes_nothing() {
    let registry = Registry::new();
    let base = base(&registry);
    let mut metrics = SourceMetrics::new(&base, "orders", id("u5"), "0");
    metrics.record_partition_offsets(batch(vec![progress("3", 8, 9, 10)]));
    let before = exported(&registry);
    metrics.record_partition_offsets(PartitionMap::new());
    assert_eq!(exported(&registry), before);
    assert_eq!(metrics.partition_metrics.len(), 1);
}

#[test]
fn gauges_stay_at_the_highest_offset() {
    let registry = Registry::new();
    let base = base(&registry);
    let mut metrics = SourceMetrics::new(&base, "orders", id("u5"), "0");
    metrics.record_partition_offsets(batch(vec![progress("0", 10, 100, 1)]));
    metrics.record_partition_offsets(batch(vec![progress("0", 5, 200, 1)]));
    assert_eq!(metrics_for(&metrics, "0").highest_offset, 10);
    assert_eq!(metrics_for(&metrics, "0").last_offset, 5);
    assert_eq!(metrics_for(&metrics, "0").last_timestamp, 200);
    for name in ["offset_received", "offset_ingested"] {
        assert_eq!(metrics_of(&registry, name), vec![metric(&["orders", "u5", "0"], 10.0)]);
    }
    assert_eq!(
        metrics_of(&registry, "messages_ingested"),
        vec![metric(&["orders", "u5", "0"], 2.0)]
    );
    metrics.record_partition_offsets(batch(vec![progress("0", 11, 150, 0)]));
    assert_eq!(metrics_for(&metrics, "0").highest_offset, 11);
    for name in ["offset_received", "offset_ingested"] {
        assert_eq!(metrics_of(&registry, name), vec![metric(&["orders", "u5", "0"], 11.0)]);
    }
}

#[test]
fn the_highest_offset_is_that_of_all_batches() {
    let registry = Registry::new();
    let base = base(&registry);
    let mut metrics = SourceMetrics::new(&base, "orders", id("u5"), "0");
    let mut highest = 0;
    for offset in [3, 0, 8, 8, 7, 21, 1] {
        metrics.record_partition_offsets(batch(vec![progress("0", offset, 0, 1)]));
        highest = highest.max(offset);
        assert_eq!(metrics_for(&metrics, "0").highest_offset, highest);
        assert_eq!(metrics_for(&metrics, "0").last_offset, offset);
        assert_eq!(
            metrics_of(&registry, "offset_ingested"),
            vec![metric(&["orders", "u5", "0"], highest as f64)]
        );
    }
    assert_eq!(highest, 21);
    assert_eq!(
        metrics_of(&registry, "messages_ingested"),
        vec![metric(&["orders", "u5", "0"], 7.0)]
    );
}

#[test]
fn a_batch_can_be_recorded_in_parts_and_in_any_order() {
    let mut outcomes = Vec::new();
    for parts in [vec![vec![0, 1]], vec![vec![0], vec![1]], vec![vec![1], vec![0]]] {
        let registry = Registry::new();
        let base = base(&registry);
        let mut metrics = SourceMetrics::new(&base, "orders", id("u5"), "0");
        metrics.record_partition_offsets(batch(vec![progress("0", 1, 1, 1)]));
        for part in parts {
            let updates = part
                .into_iter()
                .map(|key: u64| progress(&key.to_string(), 10 + key, 5, 3))
                .collect();
            metrics.record_partition_offsets(batch(updates));
        }
        outcomes.push(exported(&registry));
    }
    assert_eq!(outcomes[0], outcomes[1]);
    assert_eq!(outcomes[0], outcomes[2]);
    assert_eq!(
        outcomes[0]["messages_ingested"],
        vec![metric(&["orders", "u5", "0"], 4.0), metric(&["orders", "u5", "1"], 3.0)]
    );
}

#[test]
fn commit_metrics_belong_to_the_source() {
    let registry = Registry::new();
    let base = base(&registry);
    let reader = SourceReaderMetrics::new(&base, id("u8"));
    assert!(exported(&registry).is_empty());
    let commit = reader.offset_commit_metrics();
    assert_eq!(metrics_of(&registry, "offset_commit_failures"), vec![metric(&["u8"], 0.0)]);
    drop(commit);
    assert!(exported(&registry).is_empty());
    let again = reader.offset_commit_metrics();
    let other = OffsetCommitMetrics::new(&base, &id("u9"));
    assert_eq!(
        metrics_of(&registry, "offset_commit_failures"),
        vec![metric(&["u8"], 0.0), metric(&["u9"], 0.0)]
    );
    drop(again);
    drop(other);
}

#[test]
fn upsert_metrics_carry_source_and_worker() {
    let registry = Registry::new();
    let base = base(&registry);
    let shared = Arc::new("shared");
    let rocksdb_shared = Arc::new(17u8);
    let metrics = UpsertMetrics::new(
        &base,
        id("u3"),
        10,
        |source: &GlobalId| {
            assert_eq!(*source, id("u3"));
            Arc::clone(&shared)
        },
        |source: &GlobalId| {
            assert_eq!(*source, id("u3"));
            Arc::clone(&rocksdb_shared)
        },
        Some("backpressure".to_string()),
    );
    assert!(Arc::ptr_eq(&metrics.shared, &shared));
    assert!(Arc::ptr_eq(&metrics.rocksdb_shared, &rocksdb_shared));
    assert_eq!(metrics._backpressure_metrics, Some("backpressure".to_string()));

    let all = exported(&registry);
    let names: Vec<&str> = all.keys().map(|name| name.as_str()).collect();
    assert_eq!(
        names,
        vec![
            "legacy_value_errors",
            "merge_snapshot_deletes",
            "merge_snapshot_inserts",
            "merge_snapshot_updates",
            "multi_get_result_bytes",
            "multi_get_result_count",
            "multi_get_size",
            "multi_put_size",
            "rehydration_latency",
            "rehydration_total",
            "rehydration_updates",
            "rocksdb_autospill_in_use",
            "rocksdb_multi_get_count",
            "rocksdb_multi_get_result_bytes",
            "rocksdb_multi_get_result_count",
            "rocksdb_multi_get_size",
            "rocksdb_multi_put_count",
            "rocksdb_multi_put_size",
            "upsert_deletes",
            "upsert_inserts",
            "upsert_updates",
        ]
    );
    for metrics in all.values() {
        assert_eq!(*metrics, vec![metric(&["u3", "10"], 0.0)]);
    }

    let autospill = Arc::clone(&metrics.rocksdb_autospill_in_use);
    drop(metrics);
    assert_eq!(exported(&registry).len(), 1);
    drop(autospill);
    assert!(exported(&registry).is_empty());
}

#[test]
fn upsert_metrics_of_different_workers_are_told_apart() {
    let registry = Registry::new();
    let base = base(&registry);
    let nothing = |_: &GlobalId| Arc::new(());
    let mut first = UpsertMetrics::new(&base, id("u3"), 0, nothing, nothing, None::<()>);
    let second = UpsertMetrics::new(&base, id("u3"), 1, nothing, nothing, None::<()>);
    first.upsert_inserts.inc_by(5);
    assert_eq!(
        metrics_of(&registry, "upsert_inserts"),
        vec![metric(&["u3", "0"], 5.0), metric(&["u3", "1"], 0.0)]
    );
    drop(first);
    drop(second);
}

#[test]
fn clones_share_the_families() {
    let registry = Registry::new();
    let base = base(&registry);
    let copy = base.clone();
    let metrics = PartitionMetrics::new(&copy, "orders", &id("u1"), &partition("1"));
    drop(copy);
    drop(base);
    assert_eq!(
        metrics_of(&registry, "offset_received"),
        vec![metric(&["orders", "u1", "1"], 0.0)]
    );
    drop(metrics);
}

#[test]
fn handles_write_to_their_own_metric() {
    let registry = Registry::new();
    let gauges: Family<UIntGaugeVec, 2> = family(&registry, "gauges");
    let levels: Family<IntGaugeVec, 1> = family(&registry, "levels");
    let counters: Family<IntCounterVec, 1> = family(&registry, "counters");
    let totals: Family<UIntCounterVec, 1> = family(&registry, "totals");
    let mut one = gauges.get_delete_on_drop(vec!["x".to_string(), "1".to_string()]);
    let mut two = gauges.get_delete_on_drop(vec!["x".to_string(), "2".to_string()]);
    let mut sum = counters.get_delete_on_drop(vec!["y".to_string()]);
    let mut level = levels.get_delete_on_drop(vec!["z".to_string()]);
    let mut total = totals.get_delete_on_drop(vec!["t".to_string()]);
    level.set(7);
    level.set(-8);
    total.inc_by(30);
    total.inc_by(12);
    one.set(5);
    two.set(6);
    one.set(4);
    sum.inc_by(3);
    sum.inc_by(0);
    sum.inc_by(9);
    assert_eq!(
        metrics_of(&registry, "gauges"),
        vec![metric(&["x", "1"], 4.0), metric(&["x", "2"], 6.0)]
    );
    assert_eq!(metrics_of(&registry, "counters"), vec![metric(&["y"], 12.0)]);
    assert_eq!(metrics_of(&registry, "levels"), vec![metric(&["z"], -8.0)]);
    assert_eq!(metrics_of(&registry, "totals"), vec![metric(&["t"], 42.0)]);
}

#[test]
fn every_kind_of_vector_can_be_registered_once() {
    let registry = Registry::new();
    let _: Family<UIntGaugeVec, 1> = family(&registry, "one");
    let _: Family<IntGaugeVec, 2> = family(&registry, "two");
    let _: Family<FloatGaugeVec, 3> = family(&registry, "three");
    let _: Family<UIntCounterVec, 4> = family(&registry, "four");
    let _: Family<IntCounterVec, 1> = family(&registry, "five");
    for name in ["one", "two", "three", "four", "five"] {
        let again = Family::<UIntGaugeVec, 1>::register(&registry, name, "help", &["a"]);
        assert!(matches!(error_of(again), RegisterError::Registry(_)));
    }
}

#[test]
fn names_and_help_are_checked() {
    let registry = Registry::new();
    for (name, help, labels) in [
        ("", "help", ["a", "b"]),
        ("9lives", "help", ["a", "b"]),
        ("with-dash", "help", ["a", "b"]),
        ("good", "", ["a", "b"]),
        ("good", "help", ["a", "a"]),
        ("good", "help", ["a", "b:c"]),
        ("good", "help", ["a", ""]),
        ("good", "help", ["1", "b"]),
    ] {
        let error = error_of(Family::<UIntGaugeVec, 2>::register(&registry, name, help, &labels));
        assert!(matches!(error, RegisterError::Description(_)));
        let error = error_of(Family::<UIntCounterVec, 2>::register(&registry, name, help, &labels));
        assert!(matches!(error, RegisterError::Description(_)));
    }
    for name in ["_", ":", "a9", "A_b:c9"] {
        assert!(Family::<UIntGaugeVec, 2>::register(&registry, name, "h", &["_", "x9"]).is_ok());
    }
}

#[test]
fn every_kind_of_metric_leaves_on_drop() {
    let registry = Registry::new();
    let uint_gauges: Family<UIntGaugeVec, 1> = family(&registry, "one");
    let int_gauges: Family<IntGaugeVec, 1> = family(&registry, "two");
    let float_gauges: Family<FloatGaugeVec, 1> = family(&registry, "three");
    let uint_counters: Family<UIntCounterVec, 1> = family(&registry, "four");
    let int_counters: Family<IntCounterVec, 1> = family(&registry, "five");
    let labels = || vec!["x".to_string()];
    let handles = (
        uint_gauges.get_delete_on_drop(labels()),
        int_gauges.get_delete_on_drop(labels()),
        float_gauges.get_delete_on_drop(labels()),
        uint_counters.get_delete_on_drop(labels()),
        int_counters.get_delete_on_drop(labels()),
    );
    assert_eq!(exported(&registry).len(), 5);
    drop(handles);
    assert!(exported(&registry).is_empty());
    // The second of two handles of one metric finds it gone.
    let first = uint_gauges.get_delete_on_drop(labels());
    let second = uint_gauges.get_delete_on_drop(labels());
    drop(first);
    assert!(exported(&registry).is_empty());
    drop(second);
    assert!(exported(&registry).is_empty());
}

#[test]
fn metrics_carry_the_id_of_their_partition() {
    let registry = Registry::new();
    let base = base(&registry);
    let mut metrics = SourceMetrics::new(&base, "orders", id("u5"), "0");
    for keys in [vec![0, 1], vec![1, 2], vec![0]] {
        let updates = keys.into_iter().map(|key: i32| progress(&key.to_string(), 1, 1, 1));
        metrics.record_partition_offsets(batch(updates.collect()));
    }
    for name in ["offset_received", "offset_ingested", "closed_ts", "messages_ingested"] {
        let labels: Vec<Vec<String>> =
            metrics_of(&registry, name).into_iter().map(|(labels, _)| labels).collect();
        let expected: Vec<Vec<String>> =
            ["0", "1", "2"].iter().map(|key| metric(&["orders", "u5", key], 0.0).0).collect();
        assert_eq!(labels, expected);
    }
}
