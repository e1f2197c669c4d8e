//! Making metrics.

use std::sync::Arc;

use vstd::prelude::*;

use crate::base::SourceBaseMetrics;
use crate::metrics::delete_on_drop::{
    int_counter_state, int_gauge_state, uint_counter_state, uint_gauge_state,
};
use crate::metrics::float_gauge::FloatGaugeVec;
use crate::metrics::int_counter::IntCounterVec;
use crate::metrics::int_gauge::IntGaugeVec;
use crate::metrics::uint_counter::UIntCounterVec;
use crate::metrics::uint_gauge::UIntGaugeVec;
use crate::metrics::vector::MetricVector;
use crate::partition::PartitionMetrics;
use crate::reader::{OffsetCommitMetrics, SourceReaderMetrics};
use crate::repr::{GlobalId, PartitionId, ShardId};
use crate::sink::SourcePersistSinkMetrics;
use crate::source::SourceMetrics;
use crate::text::decimal;
use crate::upsert::UpsertMetrics;

verus! {

broadcast use {uint_gauge_state, int_gauge_state, uint_counter_state, int_counter_state};

/// The metrics of a persist sink are new ones, each of the family of its name. Their label values
/// are the parent source, the output, the shard and the worker, in this order. The source itself
/// is not among them.
pub proof fn sink_metrics_have_their_own_families(
    base: &SourceBaseMetrics,
    source_id: GlobalId,
    parent_source_id: GlobalId,
    worker_id: usize,
    shard_id: &ShardId,
    output_index: usize,
    res: SourcePersistSinkMetrics,
)
    requires
        call_ensures(
            SourcePersistSinkMetrics::new,
            (base, source_id, parent_source_id, worker_id, shard_id, output_index),
            res,
        ),
    ensures
        ({
            let families = base.source_specific;
            let labels = seq![
                parent_source_id.text@,
                decimal(output_index as nat),
                shard_id.text@,
                decimal(worker_id as nat),
            ];
            &&& res.progress.vec() == families.progress.vec()
            &&& res.progress.labels() == labels
            &&& IntGaugeVec::origin(res.progress.inner()) == (families.progress.vec(), labels)
            &&& res.progress@.writes == Seq::<i64>::empty()
            &&& res.row_inserts.vec() == families.row_inserts.vec()
            &&& res.row_inserts.labels() == labels
            &&& UIntCounterVec::origin(res.row_inserts.inner())
                == (families.row_inserts.vec(), labels)
            &&& res.row_inserts@.increments == Seq::<u64>::empty()
            &&& res.row_retractions.vec() == families.row_retractions.vec()
            &&& res.row_retractions.labels() == labels
            &&& UIntCounterVec::origin(res.row_retractions.inner())
                == (families.row_retractions.vec(), labels)
            &&& res.row_retractions@.increments == Seq::<u64>::empty()
            &&& res.error_inserts.vec() == families.error_inserts.vec()
            &&& res.error_inserts.labels() == labels
            &&& UIntCounterVec::origin(res.error_inserts.inner())
                == (families.error_inserts.vec(), labels)
            &&& res.error_inserts@.increments == Seq::<u64>::empty()
            &&& res.error_retractions.vec() == families.error_retractions.vec()
            &&& res.error_retractions.labels() == labels
            &&& UIntCounterVec::origin(res.error_retractions.inner())
                == (families.error_retractions.vec(), labels)
            &&& res.error_retractions@.increments == Seq::<u64>::empty()
            &&& res.processed_batches.vec() == families.persist_sink_processed_batches.vec()
            &&& res.processed_batches.labels() == labels
            &&& UIntCounterVec::origin(res.processed_batches.inner())
                == (families.persist_sink_processed_batches.vec(), labels)
            &&& res.processed_batches@.increments == Seq::<u64>::empty()
        }),
{
}

/// The metrics of a source are new ones, each of the family of its name and each under label values
/// of its own. No partition has metrics yet.
pub proof fn source_metrics_have_their_own_families(
    base: &SourceBaseMetrics,
    source_name: &str,
    source_id: GlobalId,
    worker_id: &str,
    res: SourceMetrics,
)
    requires
        call_ensures(SourceMetrics::new, (base, source_name, source_id, worker_id), res),
    ensures
        ({
            let families = base.source_specific;
            let labels = seq![source_name@, source_id.text@, worker_id@];
            let source_label = seq![source_id.text@];
            let worker_labels = seq![source_id.text@, worker_id@];
            &&& res.capability.vec() == families.capability.vec()
            &&& res.capability.labels() == labels
            &&& UIntGaugeVec::origin(res.capability.inner()) == (families.capability.vec(), labels)
            &&& res.capability@.writes == Seq::<u64>::empty()
            &&& res.resume_upper.vec() == families.resume_upper.vec()
            &&& res.resume_upper.labels() == source_label
            &&& IntGaugeVec::origin(res.resume_upper.inner())
                == (families.resume_upper.vec(), source_label)
            &&& res.resume_upper@.writes == Seq::<i64>::empty()
            &&& res.inmemory_remap_bindings.vec() == families.inmemory_remap_bindings.vec()
            &&& res.inmemory_remap_bindings.labels() == worker_labels
            &&& UIntGaugeVec::origin(res.inmemory_remap_bindings.inner())
                == (families.inmemory_remap_bindings.vec(), worker_labels)
            &&& res.inmemory_remap_bindings@.writes == Seq::<u64>::empty()
        }),
        res.source_name@ == source_name@,
        res.source_id == source_id,
        res.base_metrics == *base,
        forall|id: Seq<char>| !(#[trigger] res.partition_metrics@.contains_key(id)),
{
    assert forall|id: Seq<char>| !(#[trigger] res.partition_metrics@.contains_key(id)) by {
        assert(!res.partitions().contains_key(id));
    }
}

/// The metrics of a partition are new ones, each of the family of its name. Their label values are
/// the source's name, the source's id and the partition's id, in this order.
pub proof fn partition_metrics_have_their_own_families(
    base: &SourceBaseMetrics,
    source_name: &str,
    source_id: &GlobalId,
    partition_id: &PartitionId,
    res: PartitionMetrics,
)
    requires
        call_ensures(PartitionMetrics::new, (base, source_name, source_id, partition_id), res),
    ensures
        ({
            let families = base.partition_specific;
            let labels = seq![source_name@, source_id.text@, partition_id.text@];
            &&& res.offset_ingested.vec() == families.offset_ingested.vec()
            &&& res.offset_ingested.labels() == labels
            &&& UIntGaugeVec::origin(res.offset_ingested.inner())
                == (families.offset_ingested.vec(), labels)
            &&& res.offset_ingested@.writes == Seq::<u64>::empty()
            &&& res.offset_received.vec() == families.offset_received.vec()
            &&& res.offset_received.labels() == labels
            &&& UIntGaugeVec::origin(res.offset_received.inner())
                == (families.offset_received.vec(), labels)
            &&& res.offset_received@.writes == Seq::<u64>::empty()
            &&& res.closed_ts.vec() == families.closed_ts.vec()
            &&& res.closed_ts.labels() == labels
            &&& UIntGaugeVec::origin(res.closed_ts.inner()) == (families.closed_ts.vec(), labels)
            &&& res.closed_ts@.writes == Seq::<u64>::empty()
            &&& res.messages_ingested.vec() == families.messages_ingested.vec()
            &&& res.messages_ingested.labels() == labels
            &&& IntCounterVec::origin(res.messages_ingested.inner())
                == (families.messages_ingested.vec(), labels)
            &&& res.messages_ingested@.increments == Seq::<i64>::empty()
        }),
        res.highest_offset == 0,
        res.last_offset == 0,
        res.last_timestamp == 0,
{
    assert(res@.highest_offset == res.highest_offset);
    assert(res@.last_offset == res.last_offset);
    assert(res@.last_timestamp == res.last_timestamp);
}

/// The commit failures of a source are counted in the family of that name, under the source's id.
pub proof fn commit_metrics_have_their_own_family(
    base: &SourceBaseMetrics,
    source_id: &GlobalId,
    res: OffsetCommitMetrics,
)
    requires
        call_ensures(OffsetCommitMetrics::new, (base, source_id), res),
    ensures
        ({
            let families = base.source_specific;
            let labels = seq![source_id.text@];
            &&& res.offset_commit_failures.vec() == families.offset_commit_failures.vec()
            &&& res.offset_commit_failures.labels() == labels
            &&& UIntCounterVec::origin(res.offset_commit_failures.inner())
                == (families.offset_commit_failures.vec(), labels)
            &&& res.offset_commit_failures@.increments == Seq::<u64>::empty()
        }),
{
}

/// A reader's commit failures are counted for the source, and in the families, that the reader was
/// made with.
pub proof fn readers_count_for_their_source(
    base: &SourceBaseMetrics,
    source_id: GlobalId,
    reader: &SourceReaderMetrics,
    res: OffsetCommitMetrics,
)
    requires
        call_ensures(SourceReaderMetrics::new, (base, source_id), *reader),
        call_ensures(SourceReaderMetrics::offset_commit_metrics, (reader,), res),
    ensures
        ({
            let families = base.source_specific;
            let labels = seq![source_id.text@];
            &&& res.offset_commit_failures.vec() == families.offset_commit_failures.vec()
            &&& res.offset_commit_failures.labels() == labels
            &&& UIntCounterVec::origin(res.offset_commit_failures.inner())
                == (families.offset_commit_failures.vec(), labels)
            &&& res.offset_commit_failures@.increments == Seq::<u64>::empty()
        }),
{
}

/// The metrics of an `upsert` operator are new ones, each of the family of its name. Their label
/// values are the source and the worker, in this order. The shared metrics are what the lookups
/// gave for the source.
pub proof fn upsert_metrics_have_their_own_families<Shared, RocksDBShared, Backpressure, S, R>(
    base: &SourceBaseMetrics,
    source_id: GlobalId,
    worker_id: usize,
    shared: S,
    rocksdb_shared: R,
    backpressure: Option<Backpressure>,
    res: UpsertMetrics<Shared, RocksDBShared, Backpressure>,
) where
    S: Fn(&GlobalId) -> Arc<Shared>,
    R: Fn(&GlobalId) -> Arc<RocksDBShared>,

    requires
        call_ensures(
            UpsertMetrics::<Shared, RocksDBShared, Backpressure>::new::<S, R>,
            (base, source_id, worker_id, shared, rocksdb_shared, backpressure),
            res,
        ),
    ensures
        ({
            let families = base.upsert_specific;
            let labels = seq![source_id.text@, decimal(worker_id as nat)];
            &&& res.rehydration_latency.vec() == families.rehydration_latency.vec()
            &&& res.rehydration_latency.labels() == labels
            &&& FloatGaugeVec::origin(res.rehydration_latency.inner())
                == (families.rehydration_latency.vec(), labels)
            &&& res.rehydration_latency.is_untouched()
            &&& res.rehydration_total.vec() == families.rehydration_total.vec()
            &&& res.rehydration_total.labels() == labels
            &&& UIntGaugeVec::origin(res.rehydration_total.inner())
                == (families.rehydration_total.vec(), labels)
            &&& res.rehydration_total@.writes == Seq::<u64>::empty()
            &&& res.rehydration_updates.vec() == families.rehydration_updates.vec()
            &&& res.rehydration_updates.labels() == labels
            &&& UIntGaugeVec::origin(res.rehydration_updates.inner())
                == (families.rehydration_updates.vec(), labels)
            &&& res.rehydration_updates@.writes == Seq::<u64>::empty()
            &&& res.rocksdb_autospill_in_use.vec() == families.rocksdb_autospill_in_use.vec()
            &&& res.rocksdb_autospill_in_use.labels() == labels
            &&& UIntGaugeVec::origin(res.rocksdb_autospill_in_use.inner())
                == (families.rocksdb_autospill_in_use.vec(), labels)
            &&& res.rocksdb_autospill_in_use@.writes == Seq::<u64>::empty()
            &&& res.merge_snapshot_updates.vec() == families.merge_snapshot_updates.vec()
            &&& res.merge_snapshot_updates.labels() == labels
            &&& UIntCounterVec::origin(res.merge_snapshot_updates.inner())
                == (families.merge_snapshot_updates.vec(), labels)
            &&& res.merge_snapshot_updates@.increments == Seq::<u64>::empty()
            &&& res.merge_snapshot_inserts.vec() == families.merge_snapshot_inserts.vec()
            &&& res.merge_snapshot_inserts.labels() == labels
            &&& UIntCounterVec::origin(res.merge_snapshot_inserts.inner())
                == (families.merge_snapshot_inserts.vec(), labels)
            &&& res.merge_snapshot_inserts@.increments == Seq::<u64>::empty()
            &&& res.merge_snapshot_deletes.vec() == families.merge_snapshot_deletes.vec()
            &&& res.merge_snapshot_deletes.labels() == labels
            &&& UIntCounterVec::origin(res.merge_snapshot_deletes.inner())
                == (families.merge_snapshot_deletes.vec(), labels)
            &&& res.merge_snapshot_deletes@.increments == Seq::<u64>::empty()
            &&& res.upsert_inserts.vec() == families.upsert_inserts.vec()
            &&& res.upsert_inserts.labels() == labels
            &&& UIntCounterVec::origin(res.upsert_inserts.inner())
                == (families.upsert_inserts.vec(), labels)
            &&& res.upsert_inserts@.increments == Seq::<u64>::empty()
            &&& res.upsert_updates.vec() == families.upsert_updates.vec()
            &&& res.upsert_updates.labels() == labels
            &&& UIntCounterVec::origin(res.upsert_updates.inner())
                == (families.upsert_updates.vec(), labels)
            &&& res.upsert_updates@.increments == Seq::<u64>::empty()
            &&& res.upsert_deletes.vec() == families.upsert_deletes.vec()
            &&& res.upsert_deletes.labels() == labels
            &&& UIntCounterVec::origin(res.upsert_deletes.inner())
                == (families.upsert_deletes.vec(), labels)
            &&& res.upsert_deletes@.increments == Seq::<u64>::empty()
            &&& res.multi_get_size.vec() == families.multi_get_size.vec()
            &&& res.multi_get_size.labels() == labels
            &&& UIntCounterVec::origin(res.multi_get_size.inner())
                == (families.multi_get_size.vec(), labels)
            &&& res.multi_get_size@.increments == Seq::<u64>::empty()
            &&& res.multi_get_result_bytes.vec() == families.multi_get_result_bytes.vec()
            &&& res.multi_get_result_bytes.labels() == labels
            &&& UIntCounterVec::origin(res.multi_get_result_bytes.inner())
                == (families.multi_get_result_bytes.vec(), labels)
            &&& res.multi_get_result_bytes@.increments == Seq::<u64>::empty()
            &&& res.multi_get_result_count.vec() == families.multi_get_result_count.vec()
            &&& res.multi_get_result_count.labels() == labels
            &&& UIntCounterVec::origin(res.multi_get_result_count.inner())
                == (families.multi_get_result_count.vec(), labels)
            &&& res.multi_get_result_count@.increments == Seq::<u64>::empty()
            &&& res.multi_put_size.vec() == families.multi_put_size.vec()
            &&& res.multi_put_size.labels() == labels
            &&& UIntCounterVec::origin(res.multi_put_size.inner())
                == (families.multi_put_size.vec(), labels)
            &&& res.multi_put_size@.increments == Seq::<u64>::empty()
            &&& res.legacy_value_errors.vec() == families.legacy_value_errors.vec()
            &&& res.legacy_value_errors.labels() == labels
            &&& UIntGaugeVec::origin(res.legacy_value_errors.inner())
                == (families.legacy_value_errors.vec(), labels)
            &&& res.legacy_value_errors@.writes == Seq::<u64>::empty()
        }),
        call_ensures(shared, (&source_id,), res.shared),
        call_ensures(rocksdb_shared, (&source_id,), res.rocksdb_shared),
        res._backpressure_metrics == backpressure,
{
}

/// The metrics of the RocksDB instance of an `upsert` operator are new ones, each of the family of
/// its name that starts with `rocksdb`. Their label values are the source and the worker, in this
/// order.
pub proof fn rocksdb_metrics_have_their_own_families<Shared, RocksDBShared, Backpressure, S, R>(
    base: &SourceBaseMetrics,
    source_id: GlobalId,
    worker_id: usize,
    shared: S,
    rocksdb_shared: R,
    backpressure: Option<Backpressure>,
    res: UpsertMetrics<Shared, RocksDBShared, Backpressure>,
) where
    S: Fn(&GlobalId) -> Arc<Shared>,
    R: Fn(&GlobalId) -> Arc<RocksDBShared>,

    requires
        call_ensures(
            UpsertMetrics::<Shared, RocksDBShared, Backpressure>::new::<S, R>,
            (base, source_id, worker_id, shared, rocksdb_shared, backpressure),
            res,
        ),
    ensures
        ({
            let families = base.upsert_specific;
            let labels = seq![source_id.text@, decimal(worker_id as nat)];
            let instance = res.rocksdb_instance_metrics;
            &&& instance.multi_get_size.vec() == families.rocksdb_multi_get_size.vec()
            &&& instance.multi_get_size.labels() == labels
            &&& UIntCounterVec::origin(instance.multi_get_size.inner())
                == (families.rocksdb_multi_get_size.vec(), labels)
            &&& instance.multi_get_size@.increments == Seq::<u64>::empty()
            &&& instance.multi_get_result_count.vec()
                == families.rocksdb_multi_get_result_count.vec()
            &&& instance.multi_get_result_count.labels() == labels
            &&& UIntCounterVec::origin(instance.multi_get_result_count.inner())
                == (families.rocksdb_multi_get_result_count.vec(), labels)
            &&& instance.multi_get_result_count@.increments == Seq::<u64>::empty()
            &&& instance.multi_get_result_bytes.vec()
                == families.rocksdb_multi_get_result_bytes.vec()
            &&& instance.multi_get_result_bytes.labels() == labels
            &&& UIntCounterVec::origin(instance.multi_get_result_bytes.inner())
                == (families.rocksdb_multi_get_result_bytes.vec(), labels)
            &&& instance.multi_get_result_bytes@.increments == Seq::<u64>::empty()
            &&& instance.multi_get_count.vec() == families.rocksdb_multi_get_count.vec()
            &&& instance.multi_get_count.labels() == labels
            &&& UIntCounterVec::origin(instance.multi_get_count.inner())
                == (families.rocksdb_multi_get_count.vec(), labels)
            &&& instance.multi_get_count@.increments == Seq::<u64>::empty()
            &&& instance.multi_put_count.vec() == families.rocksdb_multi_put_count.vec()
            &&& instance.multi_put_count.labels() == labels
            &&& UIntCounterVec::origin(instance.multi_put_count.inner())
                == (families.rocksdb_multi_put_count.vec(), labels)
            &&& instance.multi_put_count@.increments == Seq::<u64>::empty()
            &&& instance.multi_put_size.vec() == families.rocksdb_multi_put_size.vec()
            &&& instance.multi_put_size.labels() == labels
            &&& UIntCounterVec::origin(instance.multi_put_size.inner())
                == (families.rocksdb_multi_put_size.vec(), labels)
            &&& instance.multi_put_size@.increments == Seq::<u64>::empty()
        }),
{
}

} // verus!
