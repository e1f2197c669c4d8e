use source_types::{
    DecodeResult, GlobalId, MaybeLength, MzOffset, PartitionId, PartitionMap, Row, ShardId, SourceErrorDetails,
    SourceMessage, SourceOutput, SourceReaderError, Timestamp,
};
use source_types::text::decimal_string;

fn message_of(error: SourceReaderError) -> String {
    match error.inner {
        SourceErrorDetails::Other(message) => message,
    }
}

#[test]
fn numbers_are_written_in_decimal() {
    assert_eq!(decimal_string(0), "0");
    assert_eq!(decimal_string(9), "9");
    assert_eq!(decimal_string(10), "10");
    assert_eq!(decimal_string(1058), "1058");
    for n in 0..3000 {
        assert_eq!(decimal_string(n), n.to_string());
    }
    assert_eq!(decimal_string(usize::MAX), usize::MAX.to_string());
}

#[test]
fn ids_are_shown_as_they_are() {
    assert_eq!(GlobalId { text: "u17".to_string() }.to_string(), "u17");
    assert_eq!(ShardId { text: "s8f1c".to_string() }.to_string(), "s8f1c");
    assert_eq!(PartitionId { text: "3".to_string() }.to_string(), "3");
}

#[test]
fn timestamps_become_signed() {
    assert_eq!(Timestamp { internal: 0 }.to_i64(), 0);
    assert_eq!(Timestamp { internal: 1_700_000_000_000 }.to_i64(), 1_700_000_000_000);
    assert_eq!(Timestamp { internal: i64::MAX as u64 }.to_i64(), i64::MAX);
}

#[test]
fn unit_has_no_length() {
    assert_eq!(MaybeLength::len(&()), None);
}

#[test]
fn bytes_have_their_length() {
    assert_eq!(MaybeLength::len(&Vec::<u8>::new()), Some(0));
    assert_eq!(MaybeLength::len(&vec![1u8, 2, 3]), Some(3));
}

#[test]
fn rows_have_the_length_of_their_encoding() {
    let row = Row::from_bytes(vec![7, 8, 9, 10]);
    assert_eq!(row.data(), &[7, 8, 9, 10]);
    assert_eq!(MaybeLength::len(&row), Some(4));
    assert_eq!(MaybeLength::len(&Row::from_bytes(Vec::new())), Some(0));
}

#[test]
fn optional_values_have_the_length_of_what_is_there() {
    assert_eq!(MaybeLength::len(&Some(vec![1u8, 2])), Some(2));
    assert_eq!(MaybeLength::len(&None::<Vec<u8>>), None);
    assert_eq!(MaybeLength::len(&Some(())), None);
    assert_eq!(MaybeLength::len(&Some(Some(Row::from_bytes(vec![1])))), Some(1));
    assert_eq!(MaybeLength::len(&Some(None::<Row>)), None);
}

#[test]
fn outputs_hold_what_they_are_made_of() {
    let output = SourceOutput::new(
        "key",
        5u8,
        Row::from_bytes(vec![1, 2]),
        MzOffset { offset: 77 },
    );
    assert_eq!(output.key, "key");
    assert_eq!(output.value, 5);
    assert_eq!(output.metadata, Row::from_bytes(vec![1, 2]));
    assert_eq!(output.position_for_upsert, MzOffset { offset: 77 });
    let copy = output.clone();
    assert_eq!(copy.metadata.data(), output.metadata.data());
}

#[test]
fn messages_and_decode_results_hold_their_parts() {
    let message = SourceMessage { key: (), value: vec![1u8], metadata: Row::from_bytes(vec![]) };
    assert_eq!(MaybeLength::len(&message.value), Some(1));

    let result: DecodeResult<String> = DecodeResult {
        key: None,
        value: Some(Err("bad row".to_string())),
        metadata: Row::from_bytes(vec![]),
        position_for_upsert: MzOffset { offset: 1 },
    };
    assert_eq!(result.clone(), result);
    assert_ne!(DecodeResult { key: Some(Ok(Row::from_bytes(vec![]))), ..result.clone() }, result);
}

#[test]
fn a_definite_error_keeps_its_message() {
    let error = SourceReaderError::other_definite(anyhow::Error::msg("replication slot is gone"));
    assert_eq!(message_of(error), "replication slot is gone");
    let error = SourceReaderError::other_message("offset went back".to_string());
    assert_eq!(message_of(error), "offset went back");
}

#[test]
fn a_definite_error_shows_only_the_outermost_context() {
    let error = anyhow::Error::msg("inner cause").context("reading the topic");
    assert_eq!(message_of(SourceReaderError::other_definite(error)), "reading the topic");
}

fn id(text: &str) -> PartitionId {
    PartitionId { text: text.to_string() }
}

#[test]
fn partition_maps_hold_one_value_for_each_partition() {
    let mut map = PartitionMap::new();
    assert_eq!(map.len(), 0);
    assert_eq!(map.get(&id("a")), None);
    assert_eq!(map.insert(id("a"), 1), None);
    assert_eq!(map.insert(id("b"), 2), None);
    assert_eq!(map.insert(id(""), 3), None);
    assert_eq!(map.insert(id("a"), 4), Some(1));
    assert_eq!(map.len(), 3);
    assert_eq!(map.get(&id("a")), Some(&4));
    assert_eq!(map.get(&id("b")), Some(&2));
    assert_eq!(map.get(&id("")), Some(&3));
    assert_eq!(map.get(&id("c")), None);
    assert_eq!(map.remove(&id("c")), None);
    assert_eq!(map.remove(&id("b")), Some(2));
    assert_eq!(map.remove(&id("b")), None);
    assert_eq!(map.len(), 2);
    assert_eq!(map.get(&id("a")), Some(&4));
}

#[test]
fn partition_maps_can_be_emptied() {
    let mut map = PartitionMap::new();
    for n in 0..5u8 {
        map.insert(id(&n.to_string()), n);
    }
    let mut seen = Vec::new();
    while let Some((partition, n)) = map.pop() {
        assert_eq!(partition, id(&n.to_string()));
        seen.push(n);
    }
    seen.sort();
    assert_eq!(seen, vec![0, 1, 2, 3, 4]);
    assert_eq!(map.len(), 0);
    assert_eq!(map.pop(), None);
}
