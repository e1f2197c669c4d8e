//! The plain values that sources and their metrics are made of.

use vstd::prelude::*;

verus! {

/// A row of data in its encoded form.
#[derive(Debug, Clone, PartialEq, Eq, Hash)]
pub struct Row {
    bytes: Vec<u8>,
}

impl View for Row {
    type V = Seq<u8>;

    closed spec fn view(&self) -> Seq<u8> {
        self.bytes@
    }
}

impl Row {
    /// Wraps the encoded form of a row.
    pub fn from_bytes(bytes: Vec<u8>) -> (row: Row)
        ensures
            row@ == bytes@,
    {
        Row { bytes }
    }

    /// The encoded form of the row.
    pub fn data(&self) -> (data: &[u8])
        ensures
            data@ == self@,
    {
        self.bytes.as_slice()
    }
}

/// The offset of a message in its partition.
#[derive(Debug, Clone, Copy, PartialEq, Eq, Hash)]
pub struct MzOffset {
    pub offset: u64,
}

/// A time at which data is valid, in milliseconds.
#[derive(Debug, Clone, Copy, PartialEq, Eq, Hash)]
pub struct Timestamp {
    pub internal: u64,
}

impl Timestamp {
    /// Whether the time can be told in signed milliseconds, as any time can for more than 250
    /// million years to come.
    pub open spec fn fits_i64(self) -> bool {
        self.internal <= i64::MAX
    }

    /// The time in signed milliseconds.
    pub fn to_i64(self) -> (millis: i64)
        requires
            self.fits_i64(),
        ensures
            millis == self.internal,
    {
        self.internal as i64
    }
}

/// The name under which an object, such as a source, is known.
#[derive(Debug, Clone, PartialEq, Eq, Hash)]
pub struct GlobalId {
    pub text: String,
}

impl View for GlobalId {
    type V = Seq<char>;

    open spec fn view(&self) -> Seq<char> {
        self.text@
    }
}

impl GlobalId {
    /// The id as it is shown.
    pub fn to_string(&self) -> (s: String)
        ensures
            s@ == self@,
            s@ == self.text@,
    {
        self.text.clone()
    }
}

/// The name under which a storage shard is known.
#[derive(Debug, Clone, PartialEq, Eq, Hash)]
pub struct ShardId {
    pub text: String,
}

impl View for ShardId {
    type V = Seq<char>;

    open spec fn view(&self) -> Seq<char> {
        self.text@
    }
}

impl ShardId {
    /// The id as it is shown.
    pub fn to_string(&self) -> (s: String)
        ensures
            s@ == self@,
            s@ == self.text@,
    {
        self.text.clone()
    }
}

/// The name under which a partition of a source is known.
#[derive(Debug, Clone, PartialEq, Eq, Hash)]
pub struct PartitionId {
    pub text: String,
}

impl View for PartitionId {
    type V = Seq<char>;

    open spec fn view(&self) -> Seq<char> {
        self.text@
    }
}

impl PartitionId {
    /// The id as it is shown.
    pub fn to_string(&self) -> (s: String)
        ensures
            s@ == self@,
            s@ == self.text@,
    {
        self.text.clone()
    }
}

} // verus!
