//! Metrics that leave their vector when they are dropped.

use std::sync::Arc;

use vstd::prelude::*;

use crate::metrics::any::AnyVector;
use crate::metrics::int_counter::{int_counter_inc_by, int_counter_increments, IntCounterVec};
use crate::metrics::int_gauge::{int_gauge_set, int_gauge_writes, IntGaugeVec};
use crate::metrics::uint_counter::{uint_counter_inc_by, uint_counter_increments, UIntCounterVec};
use crate::metrics::uint_gauge::{uint_gauge_set, uint_gauge_writes, UIntGaugeVec};
use crate::metrics::vector::MetricVector;
use crate::text::texts;

verus! {

/// A metric of a vector, under fixed label values, which the vector lets go of when this handle
/// is dropped.
pub struct DeleteOnDropMetric<V: MetricVector> {
    vec: Arc<V>,
    owner: AnyVector,
    labels: Vec<String>,
    inner: V::Metric,
}

impl<V: MetricVector> DeleteOnDropMetric<V> {
    /// The vector that the metric belongs to.
    pub closed spec fn vec(&self) -> V {
        *self.vec
    }

    /// The label values of the metric.
    pub closed spec fn labels(&self) -> Seq<Seq<char>> {
        texts(self.labels@)
    }

    /// The metric itself.
    pub closed spec fn inner(&self) -> V::Metric {
        self.inner
    }

    /// Whether nothing has been written to the metric through this handle.
    pub open spec fn is_untouched(&self) -> bool {
        V::is_untouched(self.inner())
    }

    /// Whether this is a new handle of the vector's metric with the given label values.
    pub open spec fn is_new(&self, vec: V, labels: Seq<Seq<char>>) -> bool {
        &&& self.vec() == vec
        &&& self.labels() == labels
        &&& V::origin(self.inner()) == (vec, labels)
        &&& self.is_untouched()
    }

    /// The metric was handed out by the vector, for the label values, and the owner is that vector.
    #[verifier::type_invariant]
    closed spec fn inv(&self) -> bool {
        &&& V::origin(self.inner) == (*self.vec, texts(self.labels@))
        &&& forall|label_values: Seq<Seq<char>>, removed: bool| #[trigger]
            self.owner.removal_answered(label_values, removed) == self.vec.removal_answered(
                label_values,
                removed,
            )
    }

    /// Takes the metric with the given label values from a vector.
    pub fn from_metric_vector(vec: Arc<V>, labels: Vec<String>) -> (res: Self)
        requires
            labels@.len() == vec.description().labels.len(),
        ensures
            res.is_new(*vec, texts(labels@)),
    {
        let inner = vec.get(&labels);
        let owner = V::erase(&vec);
        DeleteOnDropMetric { vec, owner, labels, inner }
    }
}

impl<V: MetricVector> Drop for DeleteOnDropMetric<V> {
    /// Has the vector let go of the metric. A metric that the vector has let go of already is not
    /// missed.
    fn drop(&mut self)
        ensures
            exists|removed: bool| #[trigger]
                old(self).vec().removal_answered(old(self).labels(), removed),
            V::origin(old(self).inner()) == (old(self).vec(), old(self).labels()),
        opens_invariants none
        no_unwind
    {
        proof {
            use_type_invariant(&*self);
        }
        let res = self.owner.remove(&self.labels);
        assert(self.vec().removal_answered(self.labels(), res is Ok));
    }
}

/// The state of a gauge handle: whose metric it is, and what has been written through it.
#[verifier::ext_equal]
pub struct GaugeState<V, T> {
    pub vec: V,
    pub labels: Seq<Seq<char>>,
    pub writes: Seq<T>,
}

/// The state of a counter handle: whose metric it is, and what has been added through it.
#[verifier::ext_equal]
pub struct CounterState<V, T> {
    pub vec: V,
    pub labels: Seq<Seq<char>>,
    pub increments: Seq<T>,
}

impl View for DeleteOnDropMetric<UIntGaugeVec> {
    type V = GaugeState<UIntGaugeVec, u64>;

    closed spec fn view(&self) -> GaugeState<UIntGaugeVec, u64> {
        GaugeState {
            vec: *self.vec,
            labels: texts(self.labels@),
            writes: uint_gauge_writes(self.inner),
        }
    }
}

/// The parts of the state of an unsigned gauge handle.
pub broadcast proof fn uint_gauge_state(metric: DeleteOnDropMetric<UIntGaugeVec>)
    ensures
        (#[trigger] metric@).vec == metric.vec(),
        metric@.labels == metric.labels(),
        metric@.writes == uint_gauge_writes(metric.inner()),
        metric.is_untouched() <==> metric@.writes == Seq::<u64>::empty(),
{
}

impl DeleteOnDropMetric<UIntGaugeVec> {
    /// Sets the gauge.
    pub fn set(&mut self, value: u64)
        ensures
            final(self)@ == (GaugeState { writes: old(self)@.writes.push(value), ..old(self)@ }),
            UIntGaugeVec::origin(final(self).inner()) == (final(self).vec(), final(self).labels()),
    {
        proof {
            use_type_invariant(&*self);
        }
        uint_gauge_set(&mut self.inner, value);
    }
}

impl View for DeleteOnDropMetric<IntGaugeVec> {
    type V = GaugeState<IntGaugeVec, i64>;

    closed spec fn view(&self) -> GaugeState<IntGaugeVec, i64> {
        GaugeState {
            vec: *self.vec,
            labels: texts(self.labels@),
            writes: int_gauge_writes(self.inner),
        }
    }
}

/// The parts of the state of a signed gauge handle.
pub broadcast proof fn int_gauge_state(metric: DeleteOnDropMetric<IntGaugeVec>)
    ensures
        (#[trigger] metric@).vec == metric.vec(),
        metric@.labels == metric.labels(),
        metric@.writes == int_gauge_writes(metric.inner()),
        metric.is_untouched() <==> metric@.writes == Seq::<i64>::empty(),
{
}

impl DeleteOnDropMetric<IntGaugeVec> {
    /// Sets the gauge.
    pub fn set(&mut self, value: i64)
        ensures
            final(self)@ == (GaugeState { writes: old(self)@.writes.push(value), ..old(self)@ }),
            IntGaugeVec::origin(final(self).inner()) == (final(self).vec(), final(self).labels()),
    {
        proof {
            use_type_invariant(&*self);
        }
        int_gauge_set(&mut self.inner, value);
    }
}

impl View for DeleteOnDropMetric<UIntCounterVec> {
    type V = CounterState<UIntCounterVec, u64>;

    closed spec fn view(&self) -> CounterState<UIntCounterVec, u64> {
        CounterState {
            vec: *self.vec,
            labels: texts(self.labels@),
            increments: uint_counter_increments(self.inner),
        }
    }
}

/// The parts of the state of an unsigned counter handle.
pub broadcast proof fn uint_counter_state(metric: DeleteOnDropMetric<UIntCounterVec>)
    ensures
        (#[trigger] metric@).vec == metric.vec(),
        metric@.labels == metric.labels(),
        metric@.increments == uint_counter_increments(metric.inner()),
        metric.is_untouched() <==> metric@.increments == Seq::<u64>::empty(),
{
}

impl DeleteOnDropMetric<UIntCounterVec> {
    /// Adds to the counter.
    pub fn inc_by(&mut self, amount: u64)
        ensures
            final(self)@ == (CounterState { increments: old(self)@.increments.push(amount), ..old(self)@ }),
            UIntCounterVec::origin(final(self).inner()) == (final(self).vec(), final(self).labels()),
    {
        proof {
            use_type_invariant(&*self);
        }
        uint_counter_inc_by(&mut self.inner, amount);
    }
}

impl View for DeleteOnDropMetric<IntCounterVec> {
    type V = CounterState<IntCounterVec, i64>;

    closed spec fn view(&self) -> CounterState<IntCounterVec, i64> {
        CounterState {
            vec: *self.vec,
            labels: texts(self.labels@),
            increments: int_counter_increments(self.inner),
        }
    }
}

/// The parts of the state of a signed counter handle.
pub broadcast proof fn int_counter_state(metric: DeleteOnDropMetric<IntCounterVec>)
    ensures
        (#[trigger] metric@).vec == metric.vec(),
        metric@.labels == metric.labels(),
        metric@.increments == int_counter_increments(metric.inner()),
        metric.is_untouched() <==> metric@.increments == Seq::<i64>::empty(),
{
}

impl DeleteOnDropMetric<IntCounterVec> {
    /// Adds to the counter.
    pub fn inc_by(&mut self, amount: i64)
        requires
            amount >= 0,
        ensures
            final(self)@ == (CounterState { increments: old(self)@.increments.push(amount), ..old(self)@ }),
            IntCounterVec::origin(final(self).inner()) == (final(self).vec(), final(self).labels()),
    {
        proof {
            use_type_invariant(&*self);
        }
        int_counter_inc_by(&mut self.inner, amount);
    }
}

} // verus!
