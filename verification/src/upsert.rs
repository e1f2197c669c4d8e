//! Metrics of the `upsert` operator.

use std::sync::Arc;

use vstd::prelude::*;

use crate::base::SourceBaseMetrics;
use crate::metrics::delete_on_drop::DeleteOnDropMetric;
use crate::metrics::float_gauge::FloatGaugeVec;
use crate::metrics::uint_counter::UIntCounterVec;
use crate::metrics::uint_gauge::UIntGaugeVec;
use crate::repr::GlobalId;
use crate::text::{decimal, decimal_string, texts};

verus! {

/// The label values of the metrics of an `upsert` operator.
pub open spec fn upsert_labels(source_id: Seq<char>, worker_id: nat) -> Seq<Seq<char>> {
    seq![source_id, decimal(worker_id)]
}

fn make_upsert_labels(source_id: &String, worker_id: &String) -> (labels: Vec<String>)
    ensures
        labels@.len() == 2,
        texts(labels@) == seq![source_id@, worker_id@],
{
    vec![source_id.clone(), worker_id.clone()]
}

/// Metrics of a RocksDB instance.
pub struct RocksDBInstanceMetrics {
    pub multi_get_size: DeleteOnDropMetric<UIntCounterVec>,
    pub multi_get_result_count: DeleteOnDropMetric<UIntCounterVec>,
    pub multi_get_result_bytes: DeleteOnDropMetric<UIntCounterVec>,
    pub multi_get_count: DeleteOnDropMetric<UIntCounterVec>,
    pub multi_put_count: DeleteOnDropMetric<UIntCounterVec>,
    pub multi_put_size: DeleteOnDropMetric<UIntCounterVec>,
}

impl RocksDBInstanceMetrics {
    /// Whether these are new metrics, each of its own family and all under the given label values.
    pub open spec fn is_new(&self, base: SourceBaseMetrics, labels: Seq<Seq<char>>) -> bool {
        let families = base.upsert_specific;
        &&& self.multi_get_size.is_new(families.rocksdb_multi_get_size.vec(), labels)
        &&& self.multi_get_result_count.is_new(families.rocksdb_multi_get_result_count.vec(), labels)
        &&& self.multi_get_result_bytes.is_new(families.rocksdb_multi_get_result_bytes.vec(), labels)
        &&& self.multi_get_count.is_new(families.rocksdb_multi_get_count.vec(), labels)
        &&& self.multi_put_count.is_new(families.rocksdb_multi_put_count.vec(), labels)
        &&& self.multi_put_size.is_new(families.rocksdb_multi_put_size.vec(), labels)
    }
}

/// Metrics for the `upsert` operator.
///
/// Beside its own metrics it keeps the metrics that all workers of the source share, those that
/// the source's RocksDB instances share, and those about backpressure, which must not be dropped
/// as long as the operator lives.
pub struct UpsertMetrics<Shared, RocksDBShared, Backpressure> {
    pub rehydration_latency: DeleteOnDropMetric<FloatGaugeVec>,
    pub rehydration_total: DeleteOnDropMetric<UIntGaugeVec>,
    pub rehydration_updates: DeleteOnDropMetric<UIntGaugeVec>,
    pub rocksdb_autospill_in_use: Arc<DeleteOnDropMetric<UIntGaugeVec>>,
    pub merge_snapshot_updates: DeleteOnDropMetric<UIntCounterVec>,
    pub merge_snapshot_inserts: DeleteOnDropMetric<UIntCounterVec>,
    pub merge_snapshot_deletes: DeleteOnDropMetric<UIntCounterVec>,
    pub upsert_inserts: DeleteOnDropMetric<UIntCounterVec>,
    pub upsert_updates: DeleteOnDropMetric<UIntCounterVec>,
    pub upsert_deletes: DeleteOnDropMetric<UIntCounterVec>,
    pub multi_get_size: DeleteOnDropMetric<UIntCounterVec>,
    pub multi_get_result_bytes: DeleteOnDropMetric<UIntCounterVec>,
    pub multi_get_result_count: DeleteOnDropMetric<UIntCounterVec>,
    pub multi_put_size: DeleteOnDropMetric<UIntCounterVec>,
    pub legacy_value_errors: DeleteOnDropMetric<UIntGaugeVec>,
    pub shared: Arc<Shared>,
    pub rocksdb_shared: Arc<RocksDBShared>,
    pub rocksdb_instance_metrics: Arc<RocksDBInstanceMetrics>,
    pub _backpressure_metrics: Option<Backpressure>,
}

impl<Shared, RocksDBShared, Backpressure> UpsertMetrics<Shared, RocksDBShared, Backpressure> {
    /// Whether the metrics of the operator itself, those of its RocksDB instance included, are new
    /// ones, each of its own family and all under the given label values.
    pub open spec fn is_new(&self, base: SourceBaseMetrics, labels: Seq<Seq<char>>) -> bool {
        let families = base.upsert_specific;
        &&& self.rehydration_latency.is_new(families.rehydration_latency.vec(), labels)
        &&& self.rehydration_total.is_new(families.rehydration_total.vec(), labels)
        &&& self.rehydration_updates.is_new(families.rehydration_updates.vec(), labels)
        &&& self.rocksdb_autospill_in_use.is_new(families.rocksdb_autospill_in_use.vec(), labels)
        &&& self.merge_snapshot_updates.is_new(families.merge_snapshot_updates.vec(), labels)
        &&& self.merge_snapshot_inserts.is_new(families.merge_snapshot_inserts.vec(), labels)
        &&& self.merge_snapshot_deletes.is_new(families.merge_snapshot_deletes.vec(), labels)
        &&& self.upsert_inserts.is_new(families.upsert_inserts.vec(), labels)
        &&& self.upsert_updates.is_new(families.upsert_updates.vec(), labels)
        &&& self.upsert_deletes.is_new(families.upsert_deletes.vec(), labels)
        &&& self.multi_get_size.is_new(families.multi_get_size.vec(), labels)
        &&& self.multi_get_result_bytes.is_new(families.multi_get_result_bytes.vec(), labels)
        &&& self.multi_get_result_count.is_new(families.multi_get_result_count.vec(), labels)
        &&& self.multi_put_size.is_new(families.multi_put_size.vec(), labels)
        &&& self.legacy_value_errors.is_new(families.legacy_value_errors.vec(), labels)
        &&& self.rocksdb_instance_metrics.is_new(base, labels)
    }

    /// Initialises the metrics of one worker. `shared` and `rocksdb_shared` look up the shared
    /// metrics of the source.
    pub fn new<SharedOf, RocksDBSharedOf>(
        base_metrics: &SourceBaseMetrics,
        source_id: GlobalId,
        worker_id: usize,
        shared: SharedOf,
        rocksdb_shared: RocksDBSharedOf,
        backpressure_metrics: Option<Backpressure>,
    ) -> (res: Self) where
        SharedOf: Fn(&GlobalId) -> Arc<Shared>,
        RocksDBSharedOf: Fn(&GlobalId) -> Arc<RocksDBShared>,

        requires
            call_requires(shared, (&source_id,)),
            call_requires(rocksdb_shared, (&source_id,)),
        ensures
            res.is_new(*base_metrics, upsert_labels(source_id@, worker_id as nat)),
            call_ensures(shared, (&source_id,), res.shared),
            call_ensures(rocksdb_shared, (&source_id,), res.rocksdb_shared),
            res._backpressure_metrics == backpressure_metrics,
    {
        let base = &base_metrics.upsert_specific;
        let source_id_s = source_id.to_string();
        let worker_id = decimal_string(worker_id);
        UpsertMetrics {
            rehydration_latency: base.rehydration_latency.get_delete_on_drop(
                make_upsert_labels(&source_id_s, &worker_id),
            ),
            rehydration_total: base.rehydration_total.get_delete_on_drop(
                make_upsert_labels(&source_id_s, &worker_id),
            ),
            rehydration_updates: base.rehydration_updates.get_delete_on_drop(
                make_upsert_labels(&source_id_s, &worker_id),
            ),
            rocksdb_autospill_in_use: Arc::new(
                base.rocksdb_autospill_in_use.get_delete_on_drop(make_upsert_labels(&source_id_s, &worker_id)),
            ),
            merge_snapshot_updates: base.merge_snapshot_updates.get_delete_on_drop(
                make_upsert_labels(&source_id_s, &worker_id),
            ),
            merge_snapshot_inserts: base.merge_snapshot_inserts.get_delete_on_drop(
                make_upsert_labels(&source_id_s, &worker_id),
            ),
            merge_snapshot_deletes: base.merge_snapshot_deletes.get_delete_on_drop(
                make_upsert_labels(&source_id_s, &worker_id),
            ),
            upsert_inserts: base.upsert_inserts.get_delete_on_drop(
                make_upsert_labels(&source_id_s, &worker_id),
            ),
            upsert_updates: base.upsert_updates.get_delete_on_drop(
                make_upsert_labels(&source_id_s, &worker_id),
            ),
            upsert_deletes: base.upsert_deletes.get_delete_on_drop(
                make_upsert_labels(&source_id_s, &worker_id),
            ),
            multi_get_size: base.multi_get_size.get_delete_on_drop(
                make_upsert_labels(&source_id_s, &worker_id),
            ),
            multi_get_result_bytes: base.multi_get_result_bytes.get_delete_on_drop(
                make_upsert_labels(&source_id_s, &worker_id),
            ),
            multi_get_result_count: base.multi_get_result_count.get_delete_on_drop(
                make_upsert_labels(&source_id_s, &worker_id),
            ),
            multi_put_size: base.multi_put_size.get_delete_on_drop(
                make_upsert_labels(&source_id_s, &worker_id),
            ),
            legacy_value_errors: base.legacy_value_errors.get_delete_on_drop(
                make_upsert_labels(&source_id_s, &worker_id),
            ),
            shared: shared(&source_id),
            rocksdb_shared: rocksdb_shared(&source_id),
            rocksdb_instance_metrics: Arc::new(
                RocksDBInstanceMetrics {
                    multi_get_size: base.rocksdb_multi_get_size.get_delete_on_drop(
                        make_upsert_labels(&source_id_s, &worker_id),
                    ),
                    multi_get_result_count: base.rocksdb_multi_get_result_count.get_delete_on_drop(
                        make_upsert_labels(&source_id_s, &worker_id),
                    ),
                    multi_get_result_bytes: base.rocksdb_multi_get_result_bytes.get_delete_on_drop(
                        make_upsert_labels(&source_id_s, &worker_id),
                    ),
                    multi_get_count: base.rocksdb_multi_get_count.get_delete_on_drop(
                        make_upsert_labels(&source_id_s, &worker_id),
                    ),
                    multi_put_count: base.rocksdb_multi_put_count.get_delete_on_drop(
                        make_upsert_labels(&source_id_s, &worker_id),
                    ),
                    multi_put_size: base.rocksdb_multi_put_size.get_delete_on_drop(
                        make_upsert_labels(&source_id_s, &worker_id),
                    ),
                },
            ),
            _backpressure_metrics: backpressure_metrics,
        }
    }
}

} // verus!
