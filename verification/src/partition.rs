//! Metrics of a partition of a source.

use vstd::prelude::*;

use crate::base::{PartitionMetricDefs, SourceBaseMetrics};
use crate::metrics::delete_on_drop::{
    int_counter_state, uint_gauge_state, CounterState, DeleteOnDropMetric, GaugeState,
};
use crate::metrics::int_counter::IntCounterVec;
use crate::metrics::uint_gauge::UIntGaugeVec;
use crate::repr::{GlobalId, PartitionId};
use crate::text::texts;

verus! {

broadcast use {uint_gauge_state, int_counter_state};

/// The label values of the metrics of a partition.
pub open spec fn partition_labels(
    source_name: Seq<char>,
    source_id: Seq<char>,
    partition_id: Seq<char>,
) -> Seq<Seq<char>> {
    seq![source_name, source_id, partition_id]
}

/// The state of the metrics of a partition.
#[verifier::ext_equal]
pub struct PartitionState {
    pub offset_ingested: GaugeState<UIntGaugeVec, u64>,
    pub offset_received: GaugeState<UIntGaugeVec, u64>,
    pub closed_ts: GaugeState<UIntGaugeVec, u64>,
    pub messages_ingested: CounterState<IntCounterVec, i64>,
    /// The highest offset recorded, which both offset gauges hold
    pub highest_offset: u64,
    /// The latest offset recorded
    pub last_offset: u64,
    /// The latest timestamp recorded
    pub last_timestamp: i64,
}

impl PartitionState {
    /// The state before anything is recorded.
    pub open spec fn initial(
        families: PartitionMetricDefs,
        labels: Seq<Seq<char>>,
    ) -> PartitionState {
        let writes = Seq::<u64>::empty();
        PartitionState {
            offset_ingested: GaugeState { vec: families.offset_ingested.vec(), labels, writes },
            offset_received: GaugeState { vec: families.offset_received.vec(), labels, writes },
            closed_ts: GaugeState { vec: families.closed_ts.vec(), labels, writes },
            messages_ingested: CounterState {
                vec: families.messages_ingested.vec(),
                labels,
                increments: Seq::<i64>::empty(),
            },
            highest_offset: 0,
            last_offset: 0,
            last_timestamp: 0,
        }
    }

    /// The state after a number of messages has been ingested.
    pub open spec fn count(self, count: i64) -> PartitionState {
        PartitionState {
            messages_ingested: CounterState {
                increments: self.messages_ingested.increments.push(count),
                ..self.messages_ingested
            },
            ..self
        }
    }

    /// The highest offset once messages have been read up to the given one.
    pub open spec fn high_water(self, offset: u64) -> u64 {
        if offset > self.highest_offset {
            offset
        } else {
            self.highest_offset
        }
    }

    /// The state after messages have been read up to an offset and a timestamp. The offset gauges
    /// are set to the highest offset so far.
    pub open spec fn read_up_to(self, offset: u64, timestamp: i64) -> PartitionState {
        let high = self.high_water(offset);
        PartitionState {
            offset_ingested: GaugeState {
                writes: self.offset_ingested.writes.push(high),
                ..self.offset_ingested
            },
            offset_received: GaugeState {
                writes: self.offset_received.writes.push(high),
                ..self.offset_received
            },
            highest_offset: high,
            last_offset: offset,
            last_timestamp: timestamp,
            ..self
        }
    }
}

/// Partition-specific metrics
pub struct PartitionMetrics {
    /// Highest offset that has been received by the source and timestamped
    pub offset_ingested: DeleteOnDropMetric<UIntGaugeVec>,
    /// Highest offset that has been received by the source
    pub offset_received: DeleteOnDropMetric<UIntGaugeVec>,
    /// Value of the highest timestamp that is closed (for which all messages have been ingested)
    pub closed_ts: DeleteOnDropMetric<UIntGaugeVec>,
    /// Total number of messages that have been received by the source and timestamped
    pub messages_ingested: DeleteOnDropMetric<IntCounterVec>,
    /// The highest offset recorded, which both offset gauges hold
    pub highest_offset: u64,
    /// The latest offset recorded
    pub last_offset: u64,
    /// The latest timestamp recorded
    pub last_timestamp: i64,
}

impl View for PartitionMetrics {
    type V = PartitionState;

    open spec fn view(&self) -> PartitionState {
        PartitionState {
            offset_ingested: self.offset_ingested@,
            offset_received: self.offset_received@,
            closed_ts: self.closed_ts@,
            messages_ingested: self.messages_ingested@,
            highest_offset: self.highest_offset,
            last_offset: self.last_offset,
            last_timestamp: self.last_timestamp,
        }
    }
}

fn make_partition_labels(
    source_name: &str,
    source_id: &GlobalId,
    partition_id: &PartitionId,
) -> (labels: Vec<String>)
    ensures
        labels@.len() == 3,
        texts(labels@) == partition_labels(source_name@, source_id@, partition_id@),
{
    vec![source_name.to_string(), source_id.to_string(), partition_id.to_string()]
}

impl PartitionMetrics {
    /// Record the latest offset ingested high-water mark. The offset gauges never go back.
    pub(crate) fn record_offset(
        &mut self,
        _source_name: &str,
        _source_id: &GlobalId,
        _partition_id: &PartitionId,
        offset: u64,
        timestamp: i64,
    )
        ensures
            final(self)@ == old(self)@.read_up_to(offset, timestamp),
            final(self).last_offset == offset,
            final(self).last_timestamp == timestamp,
            final(self).closed_ts == old(self).closed_ts,
            final(self).messages_ingested == old(self).messages_ingested,
    {
        if offset > self.highest_offset {
            self.highest_offset = offset;
        }
        self.offset_received.set(self.highest_offset);
        self.offset_ingested.set(self.highest_offset);
        self.last_offset = offset;
        self.last_timestamp = timestamp;
    }

    /// Initialises partition metrics for a given (source_id, partition_id)
    pub fn new(
        base_metrics: &SourceBaseMetrics,
        source_name: &str,
        source_id: &GlobalId,
        partition_id: &PartitionId,
    ) -> (res: PartitionMetrics)
        ensures
            res@ == PartitionState::initial(
                *base_metrics.partition_specific,
                partition_labels(source_name@, source_id@, partition_id@),
            ),
            res.offset_ingested.is_new(
                base_metrics.partition_specific.offset_ingested.vec(),
                seq![source_name@, source_id@, partition_id@],
            ),
            res.offset_received.is_new(
                base_metrics.partition_specific.offset_received.vec(),
                seq![source_name@, source_id@, partition_id@],
            ),
            res.closed_ts.is_new(
                base_metrics.partition_specific.closed_ts.vec(),
                seq![source_name@, source_id@, partition_id@],
            ),
            res.messages_ingested.is_new(
                base_metrics.partition_specific.messages_ingested.vec(),
                seq![source_name@, source_id@, partition_id@],
            ),
    {
        let base = &base_metrics.partition_specific;
        PartitionMetrics {
            offset_ingested: base.offset_ingested.get_delete_on_drop(
                make_partition_labels(source_name, source_id, partition_id),
            ),
            offset_received: base.offset_received.get_delete_on_drop(
                make_partition_labels(source_name, source_id, partition_id),
            ),
            closed_ts: base.closed_ts.get_delete_on_drop(
                make_partition_labels(source_name, source_id, partition_id),
            ),
            messages_ingested: base.messages_ingested.get_delete_on_drop(
                make_partition_labels(source_name, source_id, partition_id),
            ),
            highest_offset: 0,
            last_offset: 0,
            last_timestamp: 0,
        }
    }
}

} // verus!
