//! Metrics of the persist sink.

use vstd::prelude::*;

use crate::base::SourceBaseMetrics;
use crate::metrics::delete_on_drop::DeleteOnDropMetric;
use crate::metrics::int_gauge::IntGaugeVec;
use crate::metrics::uint_counter::UIntCounterVec;
use crate::repr::{GlobalId, ShardId};
use crate::text::{decimal, decimal_string, texts};

verus! {

/// The label values of the metrics of a persist sink.
pub open spec fn sink_labels(
    parent_source_id: Seq<char>,
    output_index: nat,
    shard: Seq<char>,
    worker_id: nat,
) -> Seq<Seq<char>> {
    seq![parent_source_id, decimal(output_index), shard, decimal(worker_id)]
}

fn make_sink_labels(
    parent_source_id: &GlobalId,
    output_index: usize,
    shard: &String,
    worker_id: usize,
) -> (labels: Vec<String>)
    ensures
        labels@.len() == 4,
        texts(labels@) == sink_labels(
            parent_source_id@,
            output_index as nat,
            shard@,
            worker_id as nat,
        ),
{
    vec![
        parent_source_id.to_string(),
        decimal_string(output_index),
        shard.clone(),
        decimal_string(worker_id),
    ]
}

/// Source-specific metrics in the persist sink
pub struct SourcePersistSinkMetrics {
    pub progress: DeleteOnDropMetric<IntGaugeVec>,
    pub row_inserts: DeleteOnDropMetric<UIntCounterVec>,
    pub row_retractions: DeleteOnDropMetric<UIntCounterVec>,
    pub error_inserts: DeleteOnDropMetric<UIntCounterVec>,
    pub error_retractions: DeleteOnDropMetric<UIntCounterVec>,
    pub processed_batches: DeleteOnDropMetric<UIntCounterVec>,
}

impl SourcePersistSinkMetrics {
    /// Whether these are new metrics, each of its own family and all under the given label values.
    pub open spec fn is_new(&self, base: SourceBaseMetrics, labels: Seq<Seq<char>>) -> bool {
        let families = base.source_specific;
        &&& self.progress.is_new(families.progress.vec(), labels)
        &&& self.row_inserts.is_new(families.row_inserts.vec(), labels)
        &&& self.row_retractions.is_new(families.row_retractions.vec(), labels)
        &&& self.error_inserts.is_new(families.error_inserts.vec(), labels)
        &&& self.error_retractions.is_new(families.error_retractions.vec(), labels)
        &&& self.processed_batches.is_new(families.persist_sink_processed_batches.vec(), labels)
    }

    /// Initialises source metrics used in the `persist_sink`.
    pub fn new(
        base: &SourceBaseMetrics,
        _source_id: GlobalId,
        parent_source_id: GlobalId,
        worker_id: usize,
        shard_id: &ShardId,
        output_index: usize,
    ) -> (res: SourcePersistSinkMetrics)
        ensures
            res.is_new(
                *base,
                sink_labels(parent_source_id@, output_index as nat, shard_id@, worker_id as nat),
            ),
    {
        let shard = shard_id.to_string();
        SourcePersistSinkMetrics {
            progress: base.source_specific.progress.get_delete_on_drop(
                make_sink_labels(&parent_source_id, output_index, &shard, worker_id),
            ),
            row_inserts: base.source_specific.row_inserts.get_delete_on_drop(
                make_sink_labels(&parent_source_id, output_index, &shard, worker_id),
            ),
            row_retractions: base.source_specific.row_retractions.get_delete_on_drop(
                make_sink_labels(&parent_source_id, output_index, &shard, worker_id),
            ),
            error_inserts: base.source_specific.error_inserts.get_delete_on_drop(
                make_sink_labels(&parent_source_id, output_index, &shard, worker_id),
            ),
            error_retractions: base.source_specific.error_retractions.get_delete_on_drop(
                make_sink_labels(&parent_source_id, output_index, &shard, worker_id),
            ),
            processed_batches: base.source_specific.persist_sink_processed_batches.get_delete_on_drop(
                make_sink_labels(&parent_source_id, output_index, &shard, worker_id),
            ),
        }
    }
}

} // verus!
