//! The metric families that the metrics of a source are taken from.

use std::sync::Arc;

use vstd::prelude::*;

use crate::metrics::family::Family;
use crate::metrics::float_gauge::FloatGaugeVec;
use crate::metrics::int_counter::IntCounterVec;
use crate::metrics::int_gauge::IntGaugeVec;
use crate::metrics::uint_counter::UIntCounterVec;
use crate::metrics::uint_gauge::UIntGaugeVec;

verus! {

/// Families of metrics about a source
pub struct SourceMetricDefs {
    pub capability: Family<UIntGaugeVec, 3>,
    pub resume_upper: Family<IntGaugeVec, 1>,
    pub inmemory_remap_bindings: Family<UIntGaugeVec, 2>,
    pub progress: Family<IntGaugeVec, 4>,
    pub row_inserts: Family<UIntCounterVec, 4>,
    pub row_retractions: Family<UIntCounterVec, 4>,
    pub error_inserts: Family<UIntCounterVec, 4>,
    pub error_retractions: Family<UIntCounterVec, 4>,
    pub persist_sink_processed_batches: Family<UIntCounterVec, 4>,
    pub offset_commit_failures: Family<UIntCounterVec, 1>,
}

/// Families of metrics about a partition of a source
pub struct PartitionMetricDefs {
    pub offset_ingested: Family<UIntGaugeVec, 3>,
    pub offset_received: Family<UIntGaugeVec, 3>,
    pub closed_ts: Family<UIntGaugeVec, 3>,
    pub messages_ingested: Family<IntCounterVec, 3>,
}

/// Families of metrics about the `upsert` operator
pub struct UpsertMetricDefs {
    pub rehydration_latency: Family<FloatGaugeVec, 2>,
    pub rehydration_total: Family<UIntGaugeVec, 2>,
    pub rehydration_updates: Family<UIntGaugeVec, 2>,
    pub rocksdb_autospill_in_use: Family<UIntGaugeVec, 2>,
    pub merge_snapshot_updates: Family<UIntCounterVec, 2>,
    pub merge_snapshot_inserts: Family<UIntCounterVec, 2>,
    pub merge_snapshot_deletes: Family<UIntCounterVec, 2>,
    pub upsert_inserts: Family<UIntCounterVec, 2>,
    pub upsert_updates: Family<UIntCounterVec, 2>,
    pub upsert_deletes: Family<UIntCounterVec, 2>,
    pub multi_get_size: Family<UIntCounterVec, 2>,
    pub multi_get_result_bytes: Family<UIntCounterVec, 2>,
    pub multi_get_result_count: Family<UIntCounterVec, 2>,
    pub multi_put_size: Family<UIntCounterVec, 2>,
    pub legacy_value_errors: Family<UIntGaugeVec, 2>,
    pub rocksdb_multi_get_size: Family<UIntCounterVec, 2>,
    pub rocksdb_multi_get_result_count: Family<UIntCounterVec, 2>,
    pub rocksdb_multi_get_result_bytes: Family<UIntCounterVec, 2>,
    pub rocksdb_multi_get_count: Family<UIntCounterVec, 2>,
    pub rocksdb_multi_put_count: Family<UIntCounterVec, 2>,
    pub rocksdb_multi_put_size: Family<UIntCounterVec, 2>,
}

/// All metric families of sources. A clone shares the families.
pub struct SourceBaseMetrics {
    pub source_specific: Arc<SourceMetricDefs>,
    pub partition_specific: Arc<PartitionMetricDefs>,
    pub upsert_specific: Arc<UpsertMetricDefs>,
}

impl Clone for SourceBaseMetrics {
    fn clone(&self) -> (res: Self)
        ensures
            res == *self,
    {
        SourceBaseMetrics {
            source_specific: self.source_specific.clone(),
            partition_specific: self.partition_specific.clone(),
            upsert_specific: self.upsert_specific.clone(),
        }
    }
}

} // verus!
