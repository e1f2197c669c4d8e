//! Recording progress.

use vstd::prelude::*;

use crate::metrics::delete_on_drop::{int_counter_state, uint_gauge_state};
use crate::partition_map::PartitionMap;
use crate::source::{PartitionProgress, SourceMetrics};

verus! {

broadcast use {uint_gauge_state, int_counter_state};

/// Any batch can be recorded whose timestamps are below 2^63 and whose counts are not negative.
pub proof fn progress_can_be_recorded(
    metrics: &mut SourceMetrics,
    batch: PartitionMap<PartitionProgress>,
)
    requires
        forall|id: Seq<char>|
            batch@.contains_key(id) ==> (#[trigger] batch@[id]).1.internal
                <= 9_223_372_036_854_775_807u64 && batch@[id].2 >= 0,
    ensures
        call_requires(SourceMetrics::record_partition_offsets, (metrics, batch)),
{
}

/// After a batch the partitions with metrics are those that had some before and those that the
/// batch tells of.
pub proof fn recorded_partitions_have_metrics(
    metrics: &mut SourceMetrics,
    batch: PartitionMap<PartitionProgress>,
    id: Seq<char>,
)
    requires
        call_ensures(SourceMetrics::record_partition_offsets, (metrics, batch), ()),
    ensures
        final(metrics).partition_metrics@.contains_key(id) <==> {
            ||| old(metrics).partition_metrics@.contains_key(id)
            ||| batch@.contains_key(id)
        },
{
    assert(final(metrics).partitions().contains_key(id) <==> {
        ||| old(metrics).partitions().contains_key(id)
        ||| batch@.contains_key(id)
    });
}

/// The offset and the timestamp that a batch tells of a partition are its latest afterwards, as
/// they stand in the batch, whether or not the partition had metrics before.
pub proof fn latest_progress_is_kept(
    metrics: &mut SourceMetrics,
    batch: PartitionMap<PartitionProgress>,
    id: Seq<char>,
)
    requires
        call_ensures(SourceMetrics::record_partition_offsets, (metrics, batch), ()),
        batch@.contains_key(id),
        batch@[id].1.internal <= i64::MAX,
    ensures
        final(metrics).partition_metrics@.contains_key(id),
        final(metrics).partition_metrics@[id].last_offset == batch@[id].0.offset,
        final(metrics).partition_metrics@[id].last_timestamp == batch@[id].1.internal,
{
    recorded_partitions_have_metrics(metrics, batch, id);
    assert(final(metrics).partitions()[id] == final(metrics).partition_metrics@[id]@);
}

/// A partition that has no metrics is given metrics of its own: each of the family of its name,
/// under the source's name, the source's id and the partition's id, in this order. The first
/// progress is all that they tell.
pub proof fn first_progress_makes_metrics(
    metrics: &mut SourceMetrics,
    batch: PartitionMap<PartitionProgress>,
    id: Seq<char>,
)
    requires
        call_ensures(SourceMetrics::record_partition_offsets, (metrics, batch), ()),
        !old(metrics).partition_metrics@.contains_key(id),
        batch@.contains_key(id),
    ensures
        ({
            let families = old(metrics).base_metrics.partition_specific;
            let labels = seq![old(metrics).source_name@, old(metrics).source_id.text@, id];
            let made = final(metrics).partition_metrics@[id];
            let offset = batch@[id].0.offset;
            &&& made.offset_ingested.vec() == families.offset_ingested.vec()
            &&& made.offset_ingested.labels() == labels
            &&& made.offset_ingested@.writes == seq![offset]
            &&& made.offset_received.vec() == families.offset_received.vec()
            &&& made.offset_received.labels() == labels
            &&& made.offset_received@.writes == seq![offset]
            &&& made.closed_ts.vec() == families.closed_ts.vec()
            &&& made.closed_ts.labels() == labels
            &&& made.closed_ts@.writes == Seq::<u64>::empty()
            &&& made.messages_ingested.vec() == families.messages_ingested.vec()
            &&& made.messages_ingested.labels() == labels
            &&& made.messages_ingested@.increments == seq![batch@[id].2]
            &&& made.highest_offset == offset
        }),
{
    recorded_partitions_have_metrics(metrics, batch, id);
    let made = final(metrics).partition_metrics@[id];
    assert(final(metrics).partitions()[id] == made@);
    assert(made.offset_ingested@.writes =~= seq![batch@[id].0.offset]);
    assert(made.offset_received@.writes =~= seq![batch@[id].0.offset]);
    assert(made.messages_ingested@.increments =~= seq![batch@[id].2]);
}

/// A partition that has metrics keeps them. The count is added, and both offset gauges are set
/// once, to the greater of the new offset and the highest before.
pub proof fn later_progress_is_added(
    metrics: &mut SourceMetrics,
    batch: PartitionMap<PartitionProgress>,
    id: Seq<char>,
)
    requires
        call_ensures(SourceMetrics::record_partition_offsets, (metrics, batch), ()),
        old(metrics).partition_metrics@.contains_key(id),
        batch@.contains_key(id),
    ensures
        ({
            let before = old(metrics).partition_metrics@[id];
            let after = final(metrics).partition_metrics@[id];
            let offset = batch@[id].0.offset;
            let high = after.highest_offset;
            &&& high >= offset && high >= before.highest_offset
            &&& high == offset || high == before.highest_offset
            &&& after.offset_ingested.vec() == before.offset_ingested.vec()
            &&& after.offset_ingested.labels() == before.offset_ingested.labels()
            &&& after.offset_ingested@.writes == before.offset_ingested@.writes.push(high)
            &&& after.offset_received.vec() == before.offset_received.vec()
            &&& after.offset_received.labels() == before.offset_received.labels()
            &&& after.offset_received@.writes == before.offset_received@.writes.push(high)
            &&& after.closed_ts == before.closed_ts
            &&& after.messages_ingested.vec() == before.messages_ingested.vec()
            &&& after.messages_ingested.labels() == before.messages_ingested.labels()
            &&& after.messages_ingested@.increments == before.messages_ingested@.increments.push(
                batch@[id].2,
            )
        }),
{
    recorded_partitions_have_metrics(metrics, batch, id);
    assert(old(metrics).partitions()[id] == old(metrics).partition_metrics@[id]@);
    assert(final(metrics).partitions()[id] == final(metrics).partition_metrics@[id]@);
}

/// Recording progress changes nothing but the metrics of partitions.
pub proof fn recording_leaves_the_source(
    metrics: &mut SourceMetrics,
    batch: PartitionMap<PartitionProgress>,
)
    requires
        call_ensures(SourceMetrics::record_partition_offsets, (metrics, batch), ()),
    ensures
        final(metrics).capability == old(metrics).capability,
        final(metrics).resume_upper == old(metrics).resume_upper,
        final(metrics).inmemory_remap_bindings == old(metrics).inmemory_remap_bindings,
        final(metrics).source_name == old(metrics).source_name,
        final(metrics).source_id == old(metrics).source_id,
        final(metrics).base_metrics == old(metrics).base_metrics,
{
}

/// A partition that a batch does not tell of keeps what it had.
pub proof fn recording_leaves_other_partitions(
    metrics: &mut SourceMetrics,
    batch: PartitionMap<PartitionProgress>,
    id: Seq<char>,
)
    requires
        call_ensures(SourceMetrics::record_partition_offsets, (metrics, batch), ()),
        old(metrics).partition_metrics@.contains_key(id),
        !batch@.contains_key(id),
    ensures
        final(metrics).partition_metrics@.contains_key(id),
        final(metrics).partition_metrics@[id] == old(metrics).partition_metrics@[id],
{
    recorded_partitions_have_metrics(metrics, batch, id);
}

} // verus!
