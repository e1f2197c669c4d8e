//! Metric vectors of any kind.

use std::sync::Arc;

use vstd::prelude::*;

use crate::metrics::float_gauge::{float_gauge_vec_remove, float_gauge_vec_removal_answered, FloatGaugeVec};
use crate::metrics::int_counter::{int_counter_vec_remove, int_counter_vec_removal_answered, IntCounterVec};
use crate::metrics::int_gauge::{int_gauge_vec_remove, int_gauge_vec_removal_answered, IntGaugeVec};
use crate::metrics::uint_counter::{uint_counter_vec_remove, uint_counter_vec_removal_answered, UIntCounterVec};
use crate::metrics::uint_gauge::{uint_gauge_vec_remove, uint_gauge_vec_removal_answered, UIntGaugeVec};
use crate::text::texts;

verus! {

/// A metric vector of any kind.
pub enum AnyVector {
    UIntGauge(Arc<UIntGaugeVec>),
    IntGauge(Arc<IntGaugeVec>),
    FloatGauge(Arc<FloatGaugeVec>),
    UIntCounter(Arc<UIntCounterVec>),
    IntCounter(Arc<IntCounterVec>),
}

impl AnyVector {
    /// Whether the vector, asked to let go of the metric with these label values, has answered
    /// whether it did.
    pub open spec fn removal_answered(self, label_values: Seq<Seq<char>>, removed: bool) -> bool {
        match self {
            AnyVector::UIntGauge(vec) => uint_gauge_vec_removal_answered(*vec, label_values, removed),
            AnyVector::IntGauge(vec) => int_gauge_vec_removal_answered(*vec, label_values, removed),
            AnyVector::FloatGauge(vec) => float_gauge_vec_removal_answered(*vec, label_values, removed),
            AnyVector::UIntCounter(vec) => uint_counter_vec_removal_answered(*vec, label_values, removed),
            AnyVector::IntCounter(vec) => int_counter_vec_removal_answered(*vec, label_values, removed),
        }
    }

    /// Lets go of the metric with the given label values. Fails exactly if the vector answers that
    /// it did not.
    pub fn remove(&self, label_values: &Vec<String>) -> (res: Result<(), prometheus::Error>)
        ensures
            self.removal_answered(texts(label_values@), res is Ok),
        opens_invariants none
        no_unwind
    {
        match self {
            AnyVector::UIntGauge(vec) => uint_gauge_vec_remove(vec, label_values),
            AnyVector::IntGauge(vec) => int_gauge_vec_remove(vec, label_values),
            AnyVector::FloatGauge(vec) => float_gauge_vec_remove(vec, label_values),
            AnyVector::UIntCounter(vec) => uint_counter_vec_remove(vec, label_values),
            AnyVector::IntCounter(vec) => int_counter_vec_remove(vec, label_values),
        }
    }
}

} // verus!
