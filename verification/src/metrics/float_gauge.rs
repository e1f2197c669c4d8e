//! Vectors of gauges of fractional numbers.

use std::sync::Arc;

use vstd::prelude::*;

use crate::metrics::any::AnyVector;
use crate::metrics::vector::{Description, MetricVector};
use crate::text::texts;

verus! {

/// A vector of gauges of fractional numbers: `prometheus::core::GenericGaugeVec<prometheus::core::AtomicF64>`.
#[verifier::external_body]
pub struct FloatGaugeVec {
    inner: prometheus::core::GenericGaugeVec<prometheus::core::AtomicF64>,
}

/// A gauge of a fractional number in a vector: `prometheus::core::GenericGauge<prometheus::core::AtomicF64>`.
#[verifier::external_body]
pub struct FloatGauge {
    inner: prometheus::core::GenericGauge<prometheus::core::AtomicF64>,
}

/// What the vector was made with.
pub uninterp spec fn float_gauge_vec_description(vec: FloatGaugeVec) -> Description;

/// Whether the registry, asked to export the metrics of the vector, has given this answer.
pub uninterp spec fn float_gauge_vec_answered(
    vec: FloatGaugeVec,
    registry: prometheus::Registry,
    accepted: bool,
) -> bool;

/// Whether the vector, asked to let go of the metric with these label values, has answered whether
/// it did.
pub uninterp spec fn float_gauge_vec_removal_answered(
    vec: FloatGaugeVec,
    label_values: Seq<Seq<char>>,
    removed: bool,
) -> bool;

/// The vector that handed the metric out, and the label values that it was asked for.
pub uninterp spec fn float_gauge_origin(metric: FloatGauge) -> (FloatGaugeVec, Seq<Seq<char>>);

/// Calls `GenericGaugeVec::new`, which makes an empty vector. It succeeds exactly on a valid
/// description, and the vector keeps that description.
#[verifier::external_body]
fn float_gauge_vec_new(name: &str, help: &str, label_names: &[&str]) -> (res: Result<
    FloatGaugeVec,
    prometheus::Error,
>)
    ensures
        res is Ok <==> Description::of(name, help, label_names).is_valid(),
        res matches Ok(vec) ==> float_gauge_vec_description(vec) == Description::of(
            name,
            help,
            label_names,
        ),
{
    let opts = prometheus::Opts::new(name, help);
    let inner = prometheus::core::GenericGaugeVec::new(opts, label_names)?;
    Ok(FloatGaugeVec { inner })
}

/// Calls `Registry::register` with the vector. The result is the registry's answer: success if it
/// accepts the vector, and an error if it does not. Which it is depends on what the registry
/// already holds, and that is not told.
#[verifier::external_body]
fn float_gauge_vec_register(vec: &FloatGaugeVec, registry: &prometheus::Registry) -> (res: Result<
    (),
    prometheus::Error,
>)
    ensures
        float_gauge_vec_answered(*vec, *registry, res is Ok),
{
    registry.register(Box::new(vec.inner.clone()))
}

/// Calls `MetricVec::with_label_values`, which hands out the metric for the label values and makes
/// it first where there is none. It panics only if the number of values is not that of the
/// vector's labels. The clauses tell what was asked for: lists of values that read the same when
/// run together are one metric to the crate, and that is not told.
#[verifier::external_body]
fn float_gauge_vec_get(vec: &FloatGaugeVec, label_values: &Vec<String>) -> (metric: FloatGauge)
    requires
        label_values@.len() == float_gauge_vec_description(*vec).labels.len(),
    ensures
        float_gauge_origin(metric) == (*vec, texts(label_values@)),
{
    let values: Vec<&str> = label_values.iter().map(String::as_str).collect();
    FloatGauge { inner: vec.inner.with_label_values(&values) }
}

/// Calls `MetricVec::remove_label_values`, which takes the metric for the label values out of the
/// vector. The result is the vector's answer: an error where there is no such metric, and where the
/// number of values is not that of the vector's labels. It does not panic. What the vector holds
/// afterwards is not told, since whoever else holds the vector can change it too.
#[verifier::external_body]
pub(crate) fn float_gauge_vec_remove(vec: &FloatGaugeVec, label_values: &Vec<String>) -> (res: Result<
    (),
    prometheus::Error,
>)
    ensures
        float_gauge_vec_removal_answered(*vec, texts(label_values@), res is Ok),
        label_values@.len() != float_gauge_vec_description(*vec).labels.len() ==> res is Err,
    opens_invariants none
    no_unwind
{
    let values: Vec<&str> = label_values.iter().map(String::as_str).collect();
    vec.inner.remove_label_values(&values)
}

impl MetricVector for FloatGaugeVec {
    type Metric = FloatGauge;

    open spec fn description(&self) -> Description {
        float_gauge_vec_description(*self)
    }

    open spec fn answered_by(&self, registry: prometheus::Registry, accepted: bool) -> bool {
        float_gauge_vec_answered(*self, registry, accepted)
    }

    open spec fn removal_answered(&self, label_values: Seq<Seq<char>>, removed: bool) -> bool {
        float_gauge_vec_removal_answered(*self, label_values, removed)
    }

    open spec fn origin(metric: FloatGauge) -> (FloatGaugeVec, Seq<Seq<char>>) {
        float_gauge_origin(metric)
    }

    open spec fn is_untouched(metric: FloatGauge) -> bool {
        true
    }

    fn create(name: &str, help: &str, label_names: &[&str]) -> Result<
        FloatGaugeVec,
        prometheus::Error,
    > {
        float_gauge_vec_new(name, help, label_names)
    }

    fn register(&self, registry: &prometheus::Registry) -> Result<(), prometheus::Error> {
        float_gauge_vec_register(self, registry)
    }

    fn get(&self, label_values: &Vec<String>) -> FloatGauge {
        float_gauge_vec_get(self, label_values)
    }

    fn erase(vec: &Arc<FloatGaugeVec>) -> AnyVector {
        AnyVector::FloatGauge(vec.clone())
    }
}

} // verus!
