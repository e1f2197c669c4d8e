//! Metrics of the source reader operator.

use vstd::prelude::*;

use crate::base::SourceBaseMetrics;
use crate::metrics::delete_on_drop::DeleteOnDropMetric;
use crate::metrics::uint_counter::UIntCounterVec;
use crate::repr::GlobalId;
use crate::text::texts;

verus! {

/// Source reader operator specific metrics
pub struct SourceReaderMetrics {
    source_id: GlobalId,
    base_metrics: SourceBaseMetrics,
}

impl SourceReaderMetrics {
    /// The source that is read.
    pub closed spec fn source_id(&self) -> GlobalId {
        self.source_id
    }

    /// The families that metrics are taken from.
    pub closed spec fn base_metrics(&self) -> SourceBaseMetrics {
        self.base_metrics
    }

    /// Initialises source metrics for a given source
    pub fn new(base: &SourceBaseMetrics, source_id: GlobalId) -> (res: SourceReaderMetrics)
        ensures
            res.source_id() == source_id,
            res.base_metrics() == *base,
    {
        SourceReaderMetrics { source_id, base_metrics: base.clone() }
    }

    /// Get metrics struct for offset committing.
    pub fn offset_commit_metrics(&self) -> (res: OffsetCommitMetrics)
        ensures
            res.is_new(self.base_metrics(), self.source_id()@),
    {
        OffsetCommitMetrics::new(&self.base_metrics, &self.source_id)
    }
}

/// Metrics about committing offsets
pub struct OffsetCommitMetrics {
    /// How often offsets of the source could not be committed.
    pub offset_commit_failures: DeleteOnDropMetric<UIntCounterVec>,
}

impl OffsetCommitMetrics {
    /// Whether these are new metrics of the source with the given id.
    pub open spec fn is_new(&self, base: SourceBaseMetrics, source_id: Seq<char>) -> bool {
        self.offset_commit_failures.is_new(
            base.source_specific.offset_commit_failures.vec(),
            seq![source_id],
        )
    }

    /// Initialises the metrics for a given source
    pub fn new(base_metrics: &SourceBaseMetrics, source_id: &GlobalId) -> (res: OffsetCommitMetrics)
        ensures
            res.is_new(*base_metrics, source_id@),
    {
        let labels = vec![source_id.to_string()];
        assert(texts(labels@) =~= seq![source_id@]);
        OffsetCommitMetrics {
            offset_commit_failures: base_metrics
                .source_specific
                .offset_commit_failures
                .get_delete_on_drop(labels),
        }
    }
}

} // verus!
