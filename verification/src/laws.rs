//! What holds of the metrics of a source as a whole.

use vstd::prelude::*;

use crate::length::MaybeLength;
use crate::partition::{partition_labels, PartitionState};
use crate::sink::sink_labels;
use crate::source::{is_recordable, PartitionProgress, SourceLabels};
use crate::text::decimal_is_injective;
use crate::upsert::upsert_labels;

verus! {

/// Persist sinks that differ in their source, output, shard or worker have different label values.
pub proof fn sink_labels_are_distinct(
    parent1: Seq<char>,
    output1: nat,
    shard1: Seq<char>,
    worker1: nat,
    parent2: Seq<char>,
    output2: nat,
    shard2: Seq<char>,
    worker2: nat,
)
    requires
        sink_labels(parent1, output1, shard1, worker1) == sink_labels(
            parent2,
            output2,
            shard2,
            worker2,
        ),
    ensures
        parent1 == parent2,
        output1 == output2,
        shard1 == shard2,
        worker1 == worker2,
{
    let labels1 = sink_labels(parent1, output1, shard1, worker1);
    let labels2 = sink_labels(parent2, output2, shard2, worker2);
    assert(labels1[0] == labels2[0]);
    assert(labels1[1] == labels2[1]);
    assert(labels1[2] == labels2[2]);
    assert(labels1[3] == labels2[3]);
    decimal_is_injective(output1, output2);
    decimal_is_injective(worker1, worker2);
}

/// `upsert` operators that differ in their source or worker have different label values.
pub proof fn upsert_labels_are_distinct(
    source1: Seq<char>,
    worker1: nat,
    source2: Seq<char>,
    worker2: nat,
)
    requires
        upsert_labels(source1, worker1) == upsert_labels(source2, worker2),
    ensures
        source1 == source2,
        worker1 == worker2,
{
    let labels1 = upsert_labels(source1, worker1);
    let labels2 = upsert_labels(source2, worker2);
    assert(labels1[0] == labels2[0]);
    assert(labels1[1] == labels2[1]);
    decimal_is_injective(worker1, worker2);
}

/// Partitions that differ in their source's name or id, or in their own id, have different label
/// values.
pub proof fn partition_labels_are_distinct(
    name1: Seq<char>,
    source1: Seq<char>,
    partition1: Seq<char>,
    name2: Seq<char>,
    source2: Seq<char>,
    partition2: Seq<char>,
)
    requires
        partition_labels(name1, source1, partition1) == partition_labels(
            name2,
            source2,
            partition2,
        ),
    ensures
        name1 == name2,
        source1 == source2,
        partition1 == partition2,
{
    let labels1 = partition_labels(name1, source1, partition1);
    let labels2 = partition_labels(name2, source2, partition2);
    assert(labels1[0] == labels2[0]);
    assert(labels1[1] == labels2[1]);
    assert(labels1[2] == labels2[2]);
}

impl PartitionState {
    /// The two offset gauges have been set to the same values, one for each count of messages. The
    /// last of these values, or zero if there is none, is `highest_offset`. None lies beyond it,
    /// nor does the latest offset.
    pub open spec fn is_consistent(self) -> bool {
        let writes = self.offset_received.writes;
        &&& self.offset_ingested.writes == writes
        &&& self.messages_ingested.increments.len() == writes.len()
        &&& self.highest_offset == if writes.len() == 0 {
            0
        } else {
            writes.last()
        }
        &&& forall|i: int| 0 <= i < writes.len() ==> #[trigger] writes[i] <= self.highest_offset
        &&& self.last_offset <= self.highest_offset
    }

    /// Whether all metrics are those of the partition with the given id.
    pub open spec fn is_labelled(self, source: SourceLabels, partition_id: Seq<char>) -> bool {
        let labels = seq![source.source_name, source.source_id, partition_id];
        &&& self.offset_ingested.vec == source.families.offset_ingested.vec()
        &&& self.offset_ingested.labels == labels
        &&& self.offset_received.vec == source.families.offset_received.vec()
        &&& self.offset_received.labels == labels
        &&& self.closed_ts.vec == source.families.closed_ts.vec()
        &&& self.closed_ts.labels == labels
        &&& self.messages_ingested.vec == source.families.messages_ingested.vec()
        &&& self.messages_ingested.labels == labels
    }

    /// The number of messages ingested so far.
    pub open spec fn messages(self) -> int {
        total(self.messages_ingested.increments)
    }
}

/// The sum of a sequence of numbers.
pub open spec fn total(amounts: Seq<i64>) -> int
    decreases amounts.len(),
{
    if amounts.len() == 0 {
        0
    } else {
        total(amounts.drop_last()) + amounts.last()
    }
}

/// New metrics of a partition are consistent, and recording progress keeps them so.
pub proof fn recording_keeps_consistency(
    source: SourceLabels,
    before: Map<Seq<char>, PartitionState>,
    batch: Map<Seq<char>, PartitionProgress>,
)
    requires
        forall|key: Seq<char>| before.contains_key(key) ==> (#[trigger] before[key]).is_consistent(),
    ensures
        forall|id: Seq<char>| (#[trigger] source.initial(id)).is_consistent(),
        forall|key: Seq<char>|
            source.record_all(before, batch).contains_key(key) ==> (
            #[trigger] source.record_all(before, batch)[key]).is_consistent(),
{
}

/// The states of all partitions' metrics after batches have been recorded one after the other.
pub open spec fn record_batches(
    source: SourceLabels,
    before: Map<Seq<char>, PartitionState>,
    batches: Seq<Map<Seq<char>, PartitionProgress>>,
) -> Map<Seq<char>, PartitionState>
    decreases batches.len(),
{
    if batches.len() == 0 {
        before
    } else {
        source.record_all(
            record_batches(source, before, batches.drop_last()),
            batches.last(),
        )
    }
}

/// Whether some batch tells of the partition.
pub open spec fn is_recorded(batches: Seq<Map<Seq<char>, PartitionProgress>>, key: Seq<char>) -> bool {
    exists|i: int| 0 <= i < batches.len() && (#[trigger] batches[i]).contains_key(key)
}

/// Whether an offset is the highest that the batches tell of the partition.
pub open spec fn is_highest(
    batches: Seq<Map<Seq<char>, PartitionProgress>>,
    key: Seq<char>,
    offset: u64,
) -> bool {
    &&& exists|i: int|
        0 <= i < batches.len() && (#[trigger] batches[i]).contains_key(key)
            && batches[i][key].0.offset == offset
    &&& forall|i: int|
        0 <= i < batches.len() && (#[trigger] batches[i]).contains_key(key)
            ==> batches[i][key].0.offset <= offset
}

/// Whatever is recorded, and in whatever order, the value that both offset gauges were last set to
/// is the highest offset ever recorded for the partition. A partition has metrics once it is
/// recorded, and not before.
pub proof fn gauges_hold_the_highest_offset(
    source: SourceLabels,
    before: Map<Seq<char>, PartitionState>,
    batches: Seq<Map<Seq<char>, PartitionProgress>>,
    key: Seq<char>,
)
    requires
        !before.contains_key(key),
    ensures
        record_batches(source, before, batches).contains_key(key) <==> is_recorded(batches, key),
        is_recorded(batches, key) ==> ({
            let state = record_batches(source, before, batches)[key];
            &&& is_highest(batches, key, state.highest_offset)
            &&& state.offset_received.writes.len() > 0
            &&& state.offset_received.writes.last() == state.highest_offset
            &&& state.offset_ingested.writes.len() > 0
            &&& state.offset_ingested.writes.last() == state.highest_offset
        }),
    decreases batches.len(),
{
    if batches.len() > 0 {
        let earlier = batches.drop_last();
        let last = batches.last();
        let n = batches.len() - 1;
        gauges_hold_the_highest_offset(source, before, earlier, key);
        assert(forall|i: int| 0 <= i < n ==> batches[i] == #[trigger] earlier[i]);
        assert(batches[n] == last);
        assert(is_recorded(batches, key) <==> is_recorded(earlier, key) || last.contains_key(key)) by {
            if is_recorded(earlier, key) {
                let i = choose|i: int|
                    0 <= i < earlier.len() && (#[trigger] earlier[i]).contains_key(key);
                assert(batches[i].contains_key(key));
            }
            if is_recorded(batches, key) && !last.contains_key(key) {
                let i = choose|i: int|
                    0 <= i < batches.len() && (#[trigger] batches[i]).contains_key(key);
                assert(earlier[i].contains_key(key));
            }
        }
        if is_recorded(batches, key) {
            let state = record_batches(source, before, batches)[key];
            if is_recorded(earlier, key) {
                let old_state = record_batches(source, before, earlier)[key];
                let i = choose|i: int|
                    0 <= i < earlier.len() && (#[trigger] earlier[i]).contains_key(key)
                        && earlier[i][key].0.offset == old_state.highest_offset;
                assert(batches[i][key].0.offset == old_state.highest_offset);
            }
            assert forall|i: int|
                0 <= i < batches.len() && (#[trigger] batches[i]).contains_key(
                    key,
                ) implies batches[i][key].0.offset <= state.highest_offset by {
                if i < n {
                    assert(earlier[i].contains_key(key));
                    assert(is_recorded(earlier, key));
                }
            }
        }
    }
}

/// Recording progress of a partition that has metrics sets both offset gauges to the greater of the
/// new offset and the highest before it, so that they never go back.
pub proof fn offset_gauges_never_go_back(
    source: SourceLabels,
    before: Map<Seq<char>, PartitionState>,
    batch: Map<Seq<char>, PartitionProgress>,
    key: Seq<char>,
)
    requires
        before.contains_key(key),
        before[key].is_consistent(),
        batch.contains_key(key),
    ensures
        ({
            let old_state = before[key];
            let new_state = source.record_all(before, batch)[key];
            let high = if batch[key].0.offset > old_state.highest_offset {
                batch[key].0.offset
            } else {
                old_state.highest_offset
            };
            &&& new_state.offset_received.writes == old_state.offset_received.writes.push(high)
            &&& new_state.offset_ingested.writes == old_state.offset_ingested.writes.push(high)
            &&& forall|i: int|
                0 <= i < old_state.offset_received.writes.len() ==> (
                #[trigger] old_state.offset_received.writes[i]) <= high
        }),
{
}

/// Where the metrics of every partition carry the partition's own id, they do so after any batch.
pub proof fn recording_keeps_ids(
    source: SourceLabels,
    before: Map<Seq<char>, PartitionState>,
    batch: Map<Seq<char>, PartitionProgress>,
)
    requires
        forall|key: Seq<char>|
            before.contains_key(key) ==> (#[trigger] before[key]).is_labelled(source, key),
    ensures
        forall|key: Seq<char>|
            source.record_all(before, batch).contains_key(key) ==> (
            #[trigger] source.record_all(before, batch)[key]).is_labelled(source, key),
{
}

/// Whatever is recorded, the metrics of every partition carry the partition's own id.
pub proof fn metrics_carry_their_partitions_id(
    source: SourceLabels,
    batches: Seq<Map<Seq<char>, PartitionProgress>>,
    key: Seq<char>,
)
    ensures
        ({
            let after = record_batches(source, Map::empty(), batches);
            after.contains_key(key) ==> after[key].is_labelled(source, key)
        }),
    decreases batches.len(),
{
    if batches.len() > 0 {
        let earlier = record_batches(source, Map::empty(), batches.drop_last());
        assert forall|k: Seq<char>| earlier.contains_key(k) implies (
        #[trigger] earlier[k]).is_labelled(source, k) by {
            metrics_carry_their_partitions_id(source, batches.drop_last(), k);
        }
        recording_keeps_ids(source, earlier, batches.last());
    }
}

/// Recording a batch adds the number of messages it tells of, partition by partition. A partition
/// without metrics starts from none.
pub proof fn messages_add_up(
    source: SourceLabels,
    before: Map<Seq<char>, PartitionState>,
    batch: Map<Seq<char>, PartitionProgress>,
    key: Seq<char>,
)
    requires
        batch.contains_key(key),
    ensures
        source.record_all(before, batch)[key].messages() == batch[key].2 + if before.contains_key(
            key,
        ) {
            before[key].messages()
        } else {
            0
        },
{
    let old_increments = match before.get(key) {
        Some(state) => state.messages_ingested.increments,
        None => Seq::<i64>::empty(),
    };
    let new_increments = old_increments.push(batch[key].2);
    assert(new_increments.drop_last() =~= old_increments);
    assert(total(new_increments) == total(old_increments) + batch[key].2);
    assert(source.record_all(before, batch)[key].messages_ingested.increments == new_increments);
}

/// Recorded counts never make the number of messages go down.
pub proof fn messages_never_go_down(
    source: SourceLabels,
    before: Map<Seq<char>, PartitionState>,
    batch: Map<Seq<char>, PartitionProgress>,
    key: Seq<char>,
)
    requires
        forall|k: Seq<char>| batch.contains_key(k) ==> is_recordable(#[trigger] batch[k]),
        before.contains_key(key),
    ensures
        source.record_all(before, batch).contains_key(key),
        source.record_all(before, batch)[key].messages() >= before[key].messages(),
{
    if batch.contains_key(key) {
        messages_add_up(source, before, batch, key);
    }
}

/// A partition keeps its metrics, under the same label values in the same families, however often
/// progress is recorded. Only a partition without metrics is given new ones.
pub proof fn partitions_keep_their_metrics(
    source: SourceLabels,
    before: Map<Seq<char>, PartitionState>,
    batch: Map<Seq<char>, PartitionProgress>,
    key: Seq<char>,
)
    requires
        before.contains_key(key),
    ensures
        source.record_all(before, batch).contains_key(key),
        ({
            let old_state = before[key];
            let new_state = source.record_all(before, batch)[key];
            &&& new_state.offset_ingested.vec == old_state.offset_ingested.vec
            &&& new_state.offset_ingested.labels == old_state.offset_ingested.labels
            &&& new_state.offset_received.vec == old_state.offset_received.vec
            &&& new_state.offset_received.labels == old_state.offset_received.labels
            &&& new_state.messages_ingested.vec == old_state.messages_ingested.vec
            &&& new_state.messages_ingested.labels == old_state.messages_ingested.labels
            &&& new_state.closed_ts == old_state.closed_ts
        }),
{
}

/// A batch leaves the partitions that it does not tell of as they were.
pub proof fn other_partitions_are_unchanged(
    source: SourceLabels,
    before: Map<Seq<char>, PartitionState>,
    batch: Map<Seq<char>, PartitionProgress>,
    key: Seq<char>,
)
    requires
        !batch.contains_key(key),
    ensures
        source.record_all(before, batch).get(key) == before.get(key),
{
}

/// Recording an empty batch changes nothing.
pub proof fn empty_batch_changes_nothing(source: SourceLabels, before: Map<Seq<char>, PartitionState>)
    ensures
        source.record_all(before, Map::empty()) == before,
{
    assert(source.record_all(before, Map::empty()) =~= before);
}

/// Recording a batch at once, or in two parts that share no partition, comes to the same, in
/// whichever order the parts are recorded.
pub proof fn batches_can_be_split(
    source: SourceLabels,
    before: Map<Seq<char>, PartitionState>,
    first: Map<Seq<char>, PartitionProgress>,
    second: Map<Seq<char>, PartitionProgress>,
)
    requires
        first.dom().disjoint(second.dom()),
    ensures
        source.record_all(source.record_all(before, first), second) == source.record_all(
            before,
            first.union_prefer_right(second),
        ),
        source.record_all(source.record_all(before, second), first) == source.record_all(
            before,
            first.union_prefer_right(second),
        ),
{
    let whole = source.record_all(before, first.union_prefer_right(second));
    assert forall|key: Seq<char>| !(first.contains_key(key) && second.contains_key(key)) by {
        assert(!(first.dom().contains(key) && second.dom().contains(key)));
    }
    assert(source.record_all(source.record_all(before, first), second) =~= whole);
    assert(source.record_all(source.record_all(before, second), first) =~= whole);
}

/// Progress recorded twice for a partition leaves the second offset and timestamp as the latest,
/// the higher offset in the gauges, and both counts.
pub proof fn later_progress_wins(
    source: SourceLabels,
    before: Map<Seq<char>, PartitionState>,
    first: Map<Seq<char>, PartitionProgress>,
    second: Map<Seq<char>, PartitionProgress>,
    key: Seq<char>,
)
    requires
        first.contains_key(key),
        second.contains_key(key),
        is_recordable(second[key]),
    ensures
        ({
            let middle = source.record_all(before, first)[key];
            let after = source.record_all(source.record_all(before, first), second)[key];
            &&& after.last_offset == second[key].0.offset
            &&& after.last_timestamp == second[key].1.internal
            &&& after.highest_offset == middle.high_water(second[key].0.offset)
            &&& after.offset_received.writes.last() == after.highest_offset
            &&& after.offset_ingested.writes.last() == after.highest_offset
            &&& after.messages() == middle.messages() + second[key].2
        }),
{
    messages_add_up(source, source.record_all(before, first), second, key);
}

/// A present value has its own size, and a missing one has none.
pub proof fn optional_size<T: MaybeLength>(v: T)
    ensures
        Some(v).size() == v.size(),
        None::<T>.size() is None,
{
}

} // verus!
