//! Types of the source ingestion pipeline, and the metrics that a source reports.
//!
//! A source hands on messages and records (`message`), whose keys and values may have a size
//! (`length`). It reports metrics, each under label values that say whose metric it is: those of
//! the source itself (`source`) and its partitions (`partition`), of its reader (`reader`), its
//! persist sink (`sink`) and its `upsert` operator (`upsert`). They are taken from families
//! (`base`) that the `prometheus` crate keeps (`metrics`). What holds of them as a whole is proved
//! in `laws`, and what a call of each function does in `operations`.

pub mod base;
pub mod laws;
pub mod length;
pub mod message;
pub mod metrics;
pub mod operations;
pub mod partition;
pub mod partition_map;
pub mod reader;
pub mod repr;
pub mod sink;
pub mod source;
pub mod text;
pub mod upsert;

pub use base::{PartitionMetricDefs, SourceBaseMetrics, SourceMetricDefs, UpsertMetricDefs};
pub use length::MaybeLength;
pub use message::{
    DecodeResult, SourceErrorDetails, SourceMessage, SourceOutput, SourceReaderError,
};
pub use partition::PartitionMetrics;
pub use partition_map::PartitionMap;
pub use reader::{OffsetCommitMetrics, SourceReaderMetrics};
pub use repr::{GlobalId, MzOffset, PartitionId, Row, ShardId, Timestamp};
pub use sink::SourcePersistSinkMetrics;
pub use source::{PartitionProgress, SourceMetrics};
pub use upsert::{RocksDBInstanceMetrics, UpsertMetrics};
