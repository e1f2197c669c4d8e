//! Metrics of a source.

use vstd::prelude::*;

use crate::base::{PartitionMetricDefs, SourceBaseMetrics};
use crate::metrics::delete_on_drop::DeleteOnDropMetric;
use crate::metrics::int_gauge::IntGaugeVec;
use crate::metrics::uint_gauge::UIntGaugeVec;
use crate::partition::{partition_labels, PartitionMetrics, PartitionState};
use crate::partition_map::PartitionMap;
use crate::repr::{GlobalId, MzOffset, Timestamp};
use crate::text::texts;

verus! {

/// How far a partition has been read: the offset and the timestamp that have been reached, and the
/// number of messages that were ingested on the way.
pub type PartitionProgress = (MzOffset, Timestamp, i64);

/// Whether progress can be recorded: its timestamp fits the metric that holds it, and no negative
/// number of messages was ingested.
pub open spec fn is_recordable(progress: PartitionProgress) -> bool {
    &&& progress.1.fits_i64()
    &&& progress.2 >= 0
}

/// What the metrics of the partitions of a source have in common.
pub struct SourceLabels {
    pub families: PartitionMetricDefs,
    pub source_name: Seq<char>,
    pub source_id: Seq<char>,
}

impl SourceLabels {
    /// The state of a partition's metrics before anything is recorded.
    pub open spec fn initial(self, partition_id: Seq<char>) -> PartitionState {
        PartitionState::initial(
            self.families,
            partition_labels(self.source_name, self.source_id, partition_id),
        )
    }

    /// The state of a partition's metrics after progress has been recorded, where `before` is its
    /// state if it has metrics already.
    pub open spec fn record(
        self,
        partition_id: Seq<char>,
        before: Option<PartitionState>,
        progress: PartitionProgress,
    ) -> PartitionState {
        let state = match before {
            Some(state) => state,
            None => self.initial(partition_id),
        };
        state.count(progress.2).read_up_to(progress.0.offset, progress.1.internal as i64)
    }

    /// The states of all partitions' metrics after a batch of progress has been recorded.
    pub open spec fn record_all(
        self,
        before: Map<Seq<char>, PartitionState>,
        batch: Map<Seq<char>, PartitionProgress>,
    ) -> Map<Seq<char>, PartitionState> {
        Map::new(
            |id: Seq<char>| before.contains_key(id) || batch.contains_key(id),
            |id: Seq<char>|
                if batch.contains_key(id) {
                    self.record(id, before.get(id), batch[id])
                } else {
                    before[id]
                },
        )
    }
}

/// Source-specific metrics
pub struct SourceMetrics {
    /// Value of the capability associated with this source
    pub capability: DeleteOnDropMetric<UIntGaugeVec>,
    /// The resume_upper for a source.
    pub resume_upper: DeleteOnDropMetric<IntGaugeVec>,
    /// Per-partition metrics.
    pub partition_metrics: PartitionMap<PartitionMetrics>,
    /// The number of in-memory remap bindings that reclocking a time needs to iterate over.
    pub inmemory_remap_bindings: DeleteOnDropMetric<UIntGaugeVec>,
    pub source_name: String,
    pub source_id: GlobalId,
    pub base_metrics: SourceBaseMetrics,
}

impl SourceMetrics {
    /// The states of the partitions' metrics, by the ids of the partitions.
    pub open spec fn partitions(&self) -> Map<Seq<char>, PartitionState> {
        self.partition_metrics@.map_values(|metrics: PartitionMetrics| metrics@)
    }

    /// What the metrics of the partitions have in common.
    pub open spec fn source_labels(&self) -> SourceLabels {
        SourceLabels {
            families: *self.base_metrics.partition_specific,
            source_name: self.source_name@,
            source_id: self.source_id@,
        }
    }

    /// Initialises source metrics for a given (source_id, worker_id)
    pub fn new(
        base: &SourceBaseMetrics,
        source_name: &str,
        source_id: GlobalId,
        worker_id: &str,
    ) -> (res: SourceMetrics)
        ensures
            res.capability.is_new(
                base.source_specific.capability.vec(),
                seq![source_name@, source_id@, worker_id@],
            ),
            res.resume_upper.is_new(base.source_specific.resume_upper.vec(), seq![source_id@]),
            res.inmemory_remap_bindings.is_new(
                base.source_specific.inmemory_remap_bindings.vec(),
                seq![source_id@, worker_id@],
            ),
            res.partitions() == Map::<Seq<char>, PartitionState>::empty(),
            res.source_name@ == source_name@,
            res.source_id == source_id,
            res.base_metrics == *base,
    {
        let labels = vec![source_name.to_string(), source_id.to_string(), worker_id.to_string()];
        let source_label = vec![source_id.to_string()];
        let worker_labels = vec![source_id.to_string(), worker_id.to_string()];
        assert(texts(labels@) =~= seq![source_name@, source_id@, worker_id@]);
        assert(texts(source_label@) =~= seq![source_id@]);
        assert(texts(worker_labels@) =~= seq![source_id@, worker_id@]);
        SourceMetrics {
            capability: base.source_specific.capability.get_delete_on_drop(labels),
            resume_upper: base.source_specific.resume_upper.get_delete_on_drop(source_label),
            inmemory_remap_bindings: base.source_specific.inmemory_remap_bindings.get_delete_on_drop(
                worker_labels,
            ),
            partition_metrics: PartitionMap::new(),
            source_name: source_name.to_string(),
            source_id,
            base_metrics: base.clone(),
        }
    }

    /// Log updates to which offsets / timestamps read up to.
    pub fn record_partition_offsets(&mut self, offsets: PartitionMap<PartitionProgress>)
        requires
            forall|id: Seq<char>|
                offsets@.contains_key(id) ==> is_recordable(#[trigger] offsets@[id]),
        ensures
            final(self).partitions() == old(self).source_labels().record_all(
                old(self).partitions(),
                offsets@,
            ),
            forall|id: Seq<char>| #[trigger]
                old(self).partition_metrics@.contains_key(id)
                    ==> final(self).partition_metrics@[id].closed_ts
                    == old(self).partition_metrics@[id].closed_ts,
            forall|id: Seq<char>| #[trigger]
                old(self).partition_metrics@.contains_key(id) && !offsets@.contains_key(id)
                    ==> final(self).partition_metrics@[id] == old(self).partition_metrics@[id],
            final(self).capability == old(self).capability,
            final(self).resume_upper == old(self).resume_upper,
            final(self).inmemory_remap_bindings == old(self).inmemory_remap_bindings,
            final(self).source_name == old(self).source_name,
            final(self).source_id == old(self).source_id,
            final(self).base_metrics == old(self).base_metrics,
    {
        let ghost batch = offsets@;
        let ghost metrics = self.partition_metrics@;
        let ghost before = self.partitions();
        let ghost labels = self.source_labels();
        let mut offsets = offsets;
        proof {
            assert(batch.remove_keys(offsets@.dom()) =~= Map::empty());
            assert(before =~= labels.record_all(before, Map::empty()));
        }
        loop
            invariant
                forall|id: Seq<char>|
                    batch.contains_key(id) ==> is_recordable(#[trigger] batch[id]),
                forall|id: Seq<char>| #[trigger]
                    offsets@.contains_key(id) ==> batch.contains_key(id) && batch[id]
                        == offsets@[id],
                self.partitions() == labels.record_all(before, batch.remove_keys(offsets@.dom())),
                labels == self.source_labels(),
                metrics == old(self).partition_metrics@,
                forall|id: Seq<char>| #[trigger]
                    metrics.contains_key(id) ==> self.partition_metrics@.contains_key(id)
                        && self.partition_metrics@[id].closed_ts == metrics[id].closed_ts,
                forall|id: Seq<char>| #[trigger]
                    metrics.contains_key(id) && (offsets@.contains_key(id) || !batch.contains_key(
                        id,
                    )) ==> self.partition_metrics@[id] == metrics[id],
                self.capability == old(self).capability,
                self.resume_upper == old(self).resume_upper,
                self.inmemory_remap_bindings == old(self).inmemory_remap_bindings,
                self.source_name == old(self).source_name,
                self.source_id == old(self).source_id,
                self.base_metrics == old(self).base_metrics,
            ensures
                offsets@ == Map::<Seq<char>, PartitionProgress>::empty(),
            decreases offsets@.len(),
        {
            let (partition, (offset, timestamp, count)) = match offsets.pop() {
                Some(update) => update,
                None => break,
            };
            let ghost current = self.partitions();
            let ghost id = partition@;
            let mut metric = match self.partition_metrics.remove(&partition) {
                Some(metric) => metric,
                None => PartitionMetrics::new(
                    &self.base_metrics,
                    &self.source_name,
                    &self.source_id,
                    &partition,
                ),
            };
            metric.messages_ingested.inc_by(count);
            metric.record_offset(
                &self.source_name,
                &self.source_id,
                &partition,
                offset.offset,
                timestamp.to_i64(),
            );
            proof {
                assert(current.get(id) == before.get(id));
                assert(metric@ == labels.record(id, before.get(id), batch[id]));
            }
            self.partition_metrics.insert(partition, metric);
            proof {
                assert(self.partitions() =~= current.insert(id, metric@));
                assert(self.partitions() =~= labels.record_all(
                    before,
                    batch.remove_keys(offsets@.dom()),
                ));
            }
        }
        proof {
            assert(batch.remove_keys(offsets@.dom()) =~= batch);
        }
    }
}

} // verus!
