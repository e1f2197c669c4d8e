//! Plain values: texts, ids, times, label values, sizes and maps from partitions.

use vstd::prelude::*;

use crate::length::MaybeLength;
use crate::partition::partition_labels;
use crate::partition_map::PartitionMap;
use crate::repr::{GlobalId, MzOffset, PartitionId, Row, ShardId, Timestamp};
use crate::sink::sink_labels;
use crate::source::is_recordable;
use crate::text::{decimal, decimal_string, str_texts, texts};
use crate::upsert::upsert_labels;

verus! {

/// The size of bytes is their number, whatever it is.
pub proof fn bytes_are_counted(bytes: &Vec<u8>, res: Option<usize>)
    requires
        call_ensures(<Vec<u8> as MaybeLength>::len, (bytes,), res),
    ensures
        res matches Some(n) && n == bytes@.len(),
{
}

/// The size of a row is the number of bytes that it was made of, which are also those that it gives
/// back.
pub proof fn rows_are_as_long_as_their_bytes(
    bytes: Vec<u8>,
    row: &Row,
    data: &[u8],
    res: Option<usize>,
)
    requires
        call_ensures(Row::from_bytes, (bytes,), *row),
        call_ensures(Row::data, (row,), data),
        call_ensures(<Row as MaybeLength>::len, (row,), res),
    ensures
        data@ == bytes@,
        res matches Some(n) && n == bytes@.len(),
{
}

/// The unit value has no size.
pub proof fn unit_has_no_size(res: Option<usize>)
    requires
        call_ensures(<() as MaybeLength>::len, (&(),), res),
    ensures
        res is None,
{
}

/// A present value has the size that it has by itself.
pub proof fn present_values_have_their_own_size<T: MaybeLength>(
    value: T,
    size: Option<usize>,
    res: Option<usize>,
)
    requires
        call_ensures(<T as MaybeLength>::len, (&value,), size),
        call_ensures(<Option<T> as MaybeLength>::len, (&Some(value),), res),
    ensures
        res == size,
{
}

/// A missing value has no size.
pub proof fn missing_values_have_no_size<T: MaybeLength>(res: Option<usize>)
    requires
        call_ensures(<Option<T> as MaybeLength>::len, (&None::<T>,), res),
    ensures
        res is None,
{
}

/// Ids are known by their texts, and shown as these.
pub proof fn ids_are_their_texts(
    id: &GlobalId,
    shard: &ShardId,
    partition: &PartitionId,
    shown_id: String,
    shown_shard: String,
    shown_partition: String,
)
    requires
        call_ensures(GlobalId::to_string, (id,), shown_id),
        call_ensures(ShardId::to_string, (shard,), shown_shard),
        call_ensures(PartitionId::to_string, (partition,), shown_partition),
    ensures
        id@ == id.text@,
        shard@ == shard.text@,
        partition@ == partition.text@,
        shown_id@ == id.text@,
        shown_shard@ == shard.text@,
        shown_partition@ == partition.text@,
{
}

/// A time can be told in signed milliseconds exactly if it is below 2^63, and it is then told
/// unchanged.
pub proof fn times_are_told_unchanged(time: Timestamp, millis: i64)
    ensures
        time.fits_i64() <==> time.internal <= 9_223_372_036_854_775_807u64,
        time.internal <= 9_223_372_036_854_775_807u64 ==> call_requires(Timestamp::to_i64, (time,)),
        call_ensures(Timestamp::to_i64, (time,), millis) ==> millis == time.internal,
{
}

/// Progress can be recorded exactly if its timestamp is below 2^63 and its count is not negative,
/// whatever the offset.
pub proof fn any_sensible_progress_is_recordable(offset: MzOffset, time: Timestamp, count: i64)
    ensures
        is_recordable((offset, time, count)) <==> time.internal <= 9_223_372_036_854_775_807u64
            && count >= 0,
{
}

/// The texts of strings are those of each of them, in their order.
pub proof fn texts_are_taken_one_by_one(strings: Seq<String>, strs: Seq<&str>)
    ensures
        texts(strings).len() == strings.len(),
        forall|i: int| 0 <= i < strings.len() ==> #[trigger] texts(strings)[i] == strings[i]@,
        str_texts(strs).len() == strs.len(),
        forall|i: int| 0 <= i < strs.len() ==> #[trigger] str_texts(strs)[i] == strs[i]@,
{
}

/// A number below ten is written as one digit, its own.
pub proof fn small_numbers_are_digits()
    ensures
        decimal(0) == seq!['0'],
        decimal(1) == seq!['1'],
        decimal(2) == seq!['2'],
        decimal(3) == seq!['3'],
        decimal(4) == seq!['4'],
        decimal(5) == seq!['5'],
        decimal(6) == seq!['6'],
        decimal(7) == seq!['7'],
        decimal(8) == seq!['8'],
        decimal(9) == seq!['9'],
{
}

/// A positive number times ten, plus a digit, is written as the number followed by the digit.
pub proof fn digits_are_appended(n: nat, d: nat)
    requires
        n > 0,
        d < 10,
    ensures
        decimal(10 * n + d) == decimal(n) + decimal(d),
{
    assert((10 * n + d) / 10 == n);
    assert((10 * n + d) % 10 == d);
    assert(decimal(10 * n + d) =~= decimal(n) + decimal(d));
}

/// What is written for a number followed by a digit is what is written for the number, followed by
/// what is written for the digit.
pub proof fn longer_numbers_are_written_alike(
    n: usize,
    d: usize,
    longer: usize,
    number: String,
    digit: String,
    res: String,
)
    requires
        n > 0,
        d < 10,
        longer == 10 * n + d,
        call_ensures(decimal_string, (n,), number),
        call_ensures(decimal_string, (d,), digit),
        call_ensures(decimal_string, (longer,), res),
    ensures
        res@ == number@ + digit@,
{
    digits_are_appended(n as nat, d as nat);
}

/// The label values of a partition's metrics are the source's name, the source's id and the
/// partition's id, in this order.
pub proof fn partition_labels_by_position(
    source_name: Seq<char>,
    source_id: Seq<char>,
    partition_id: Seq<char>,
)
    ensures
        partition_labels(source_name, source_id, partition_id).len() == 3,
        partition_labels(source_name, source_id, partition_id)[0] == source_name,
        partition_labels(source_name, source_id, partition_id)[1] == source_id,
        partition_labels(source_name, source_id, partition_id)[2] == partition_id,
{
}

/// The label values of a persist sink's metrics are the parent source, the output, the shard and
/// the worker, in this order.
pub proof fn sink_labels_by_position(
    parent_source_id: Seq<char>,
    output_index: nat,
    shard: Seq<char>,
    worker_id: nat,
)
    ensures
        sink_labels(parent_source_id, output_index, shard, worker_id).len() == 4,
        sink_labels(parent_source_id, output_index, shard, worker_id)[0] == parent_source_id,
        sink_labels(parent_source_id, output_index, shard, worker_id)[1] == decimal(output_index),
        sink_labels(parent_source_id, output_index, shard, worker_id)[2] == shard,
        sink_labels(parent_source_id, output_index, shard, worker_id)[3] == decimal(worker_id),
{
}

/// The label values of an `upsert` operator's metrics are the source and the worker, in this order.
pub proof fn upsert_labels_by_position(source_id: Seq<char>, worker_id: nat)
    ensures
        upsert_labels(source_id, worker_id).len() == 2,
        upsert_labels(source_id, worker_id)[0] == source_id,
        upsert_labels(source_id, worker_id)[1] == decimal(worker_id),
{
}

/// A new map holds nothing.
pub proof fn new_maps_hold_nothing<T>(
    map: &PartitionMap<T>,
    id: &PartitionId,
    found: Option<&T>,
    n: usize,
)
    requires
        call_ensures(PartitionMap::<T>::new, (), *map),
        call_ensures(PartitionMap::<T>::get, (map, id), found),
        call_ensures(PartitionMap::<T>::len, (map,), n),
    ensures
        found is None,
        n == 0,
{
}

/// What was put into a map for a partition is what the map holds for it. For any other partition it
/// holds what it held before.
pub proof fn maps_hold_what_was_put_in<T>(
    map: &mut PartitionMap<T>,
    id: PartitionId,
    value: T,
    replaced: Option<T>,
    other: &PartitionId,
    before: Option<&T>,
    after: Option<&T>,
)
    requires
        call_ensures(PartitionMap::<T>::insert, (map, id, value), replaced),
        call_ensures(PartitionMap::<T>::get, (old(map), other), before),
        call_ensures(PartitionMap::<T>::get, (final(map), other), after),
    ensures
        other.text@ == id.text@ ==> after == Some(&value) && match before {
            Some(held) => replaced == Some(*held),
            None => replaced is None,
        },
        other.text@ != id.text@ ==> after == before,
{
}

/// What was taken out of a map for a partition is what the map held for it, and it holds nothing
/// for it any more. For any other partition it holds what it held before.
pub proof fn maps_give_back_what_they_hold<T>(
    map: &mut PartitionMap<T>,
    id: &PartitionId,
    taken: Option<T>,
    other: &PartitionId,
    before: Option<&T>,
    after: Option<&T>,
)
    requires
        call_ensures(PartitionMap::<T>::remove, (map, id), taken),
        call_ensures(PartitionMap::<T>::get, (old(map), other), before),
        call_ensures(PartitionMap::<T>::get, (final(map), other), after),
    ensures
        other.text@ == id.text@ ==> after is None && match before {
            Some(held) => taken == Some(*held),
            None => taken is None,
        },
        other.text@ != id.text@ ==> after == before,
{
}

} // verus!
