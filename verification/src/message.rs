//! What sources and decoders hand on.

use vstd::prelude::*;

use crate::repr::{MzOffset, Row};

verus! {

/// The error type of the `anyhow` crate. Nothing is known of a value of it but how it is shown.
#[verifier::external_type_specification]
#[verifier::external_body]
pub struct ExAnyhowError(anyhow::Error);

/// Source-agnostic wrapper for messages.
#[derive(Debug, Clone)]
pub struct SourceMessage<Key, Value> {
    /// The message key
    pub key: Key,
    /// The message value
    pub value: Value,
    /// Additional metadata columns requested by the user
    pub metadata: Row,
}

/// A record produced by a source
#[derive(Debug, Clone)]
pub struct SourceOutput<K, V> {
    /// The record's key (or some empty/default value for sources without the concept of key)
    pub key: K,
    /// The record's value
    pub value: V,
    /// Additional metadata columns requested by the user
    pub metadata: Row,
    /// The offset position in the partition of a kafka source. Its only valid use is in the
    /// upsert operator.
    pub position_for_upsert: MzOffset,
}

impl<K, V> SourceOutput<K, V> {
    /// Build a new SourceOutput
    pub fn new(key: K, value: V, metadata: Row, position_for_upsert: MzOffset) -> (res: Self)
        ensures
            res == (SourceOutput { key, value, metadata, position_for_upsert }),
    {
        SourceOutput { key, value, metadata, position_for_upsert }
    }
}

/// The output of the decoding operator, where `E` is what a row that cannot be decoded gives
#[derive(Debug, Clone, PartialEq, Eq, Hash)]
pub struct DecodeResult<E> {
    /// The decoded key
    pub key: Option<Result<Row, E>>,
    /// The decoded value, if the value is present
    pub value: Option<Result<Row, E>>,
    /// Additional metadata requested by the user
    pub metadata: Row,
    /// The offset position in the partition of a kafka source. Its only valid use is in the
    /// upsert operator.
    pub position_for_upsert: MzOffset,
}

/// What went wrong in a source.
#[derive(Debug, Clone)]
pub enum SourceErrorDetails {
    /// An error that is only known by its message
    Other(String),
}

/// A structured error of a source reader.
#[derive(Debug, Clone)]
pub struct SourceReaderError {
    pub inner: SourceErrorDetails,
}

impl SourceReaderError {
    /// An unclassified but definite error with the given message.
    pub fn other_message(message: String) -> (res: SourceReaderError)
        ensures
            res.inner == SourceErrorDetails::Other(message),
    {
        SourceReaderError { inner: SourceErrorDetails::Other(message) }
    }

    /// This is an unclassified but definite error. This is typically only appropriate
    /// when the error is permanently fatal for the source... some critical invariant
    /// is violated or data is corrupted, for example.
    ///
    /// The message is what `e` is shown as.
    pub fn other_definite(e: anyhow::Error) -> (res: SourceReaderError)
        ensures
            res.inner matches SourceErrorDetails::Other(message)
                && vstd::string::to_string_from_display_ensures(&e, message),
    {
        SourceReaderError::other_message(e.to_string())
    }
}

} // verus!
