//! Vectors of unsigned gauges.

use std::sync::Arc;

use vstd::prelude::*;

use crate::metrics::any::AnyVector;
use crate::metrics::vector::{Description, MetricVector};
use crate::text::texts;

verus! {

/// A vector of unsigned gauges: `prometheus::core::GenericGaugeVec<prometheus::core::AtomicU64>`.
#[verifier::external_body]
pub struct UIntGaugeVec {
    inner: prometheus::core::GenericGaugeVec<prometheus::core::AtomicU64>,
}

/// An unsigned gauge in a vector: `prometheus::core::GenericGauge<prometheus::core::AtomicU64>`.
#[verifier::external_body]
pub struct UIntGauge {
    inner: prometheus::core::GenericGauge<prometheus::core::AtomicU64>,
}

/// What the vector was made with.
pub uninterp spec fn uint_gauge_vec_description(vec: UIntGaugeVec) -> Description;

/// Whether the registry, asked to export the metrics of the vector, has given this answer.
pub uninterp spec fn uint_gauge_vec_answered(
    vec: UIntGaugeVec,
    registry: prometheus::Registry,
    accepted: bool,
) -> bool;

/// Whether the vector, asked to let go of the metric with these label values, has answered whether
/// it did.
pub uninterp spec fn uint_gauge_vec_removal_answered(
    vec: UIntGaugeVec,
    label_values: Seq<Seq<char>>,
    removed: bool,
) -> bool;

/// The vector that handed the metric out, and the label values that it was asked for.
pub uninterp spec fn uint_gauge_origin(metric: UIntGauge) -> (UIntGaugeVec, Seq<Seq<char>>);

/// The values that the gauge has been set to through this handle, oldest first.
pub uninterp spec fn uint_gauge_writes(metric: UIntGauge) -> Seq<u64>;

/// Calls `GenericGaugeVec::new`, which makes an empty vector. It succeeds exactly on a valid
/// description, and the vector keeps that description.
#[verifier::external_body]
fn uint_gauge_vec_new(name: &str, help: &str, label_names: &[&str]) -> (res: Result<
    UIntGaugeVec,
    prometheus::Error,
>)
    ensures
        res is Ok <==> Description::of(name, help, label_names).is_valid(),
        res matches Ok(vec) ==> uint_gauge_vec_description(vec) == Description::of(
            name,
            help,
            label_names,
        ),
{
    let opts = prometheus::Opts::new(name, help);
    let inner = prometheus::core::GenericGaugeVec::new(opts, label_names)?;
    Ok(UIntGaugeVec { inner })
}

/// Calls `Registry::register` with the vector. The result is the registry's answer: success if it
/// accepts the vector, and an error if it does not. Which it is depends on what the registry
/// already holds, and that is not told.
#[verifier::external_body]
fn uint_gauge_vec_register(vec: &UIntGaugeVec, registry: &prometheus::Registry) -> (res: Result<
    (),
    prometheus::Error,
>)
    ensures
        uint_gauge_vec_answered(*vec, *registry, res is Ok),
{
    registry.register(Box::new(vec.inner.clone()))
}

/// Calls `MetricVec::with_label_values`, which hands out the metric for the label values and makes
/// it first where there is none. It panics only if the number of values is not that of the
/// vector's labels. The clauses tell what was asked for: lists of values that read the same when
/// run together are one metric to the crate, and that is not told.
#[verifier::external_body]
fn uint_gauge_vec_get(vec: &UIntGaugeVec, label_values: &Vec<String>) -> (metric: UIntGauge)
    requires
        label_values@.len() == uint_gauge_vec_description(*vec).labels.len(),
    ensures
        uint_gauge_origin(metric) == (*vec, texts(label_values@)),
        uint_gauge_writes(metric) == Seq::<u64>::empty(),
{
    let values: Vec<&str> = label_values.iter().map(String::as_str).collect();
    UIntGauge { inner: vec.inner.with_label_values(&values) }
}

/// Calls `MetricVec::remove_label_values`, which takes the metric for the label values out of the
/// vector. The result is the vector's answer: an error where there is no such metric, and where the
/// number of values is not that of the vector's labels. It does not panic. What the vector holds
/// afterwards is not told, since whoever else holds the vector can change it too.
#[verifier::external_body]
pub(crate) fn uint_gauge_vec_remove(vec: &UIntGaugeVec, label_values: &Vec<String>) -> (res: Result<
    (),
    prometheus::Error,
>)
    ensures
        uint_gauge_vec_removal_answered(*vec, texts(label_values@), res is Ok),
        label_values@.len() != uint_gauge_vec_description(*vec).labels.len() ==> res is Err,
    opens_invariants none
    no_unwind
{
    let values: Vec<&str> = label_values.iter().map(String::as_str).collect();
    vec.inner.remove_label_values(&values)
}

/// Calls `GenericGauge::set`, which stores the value in the gauge.
#[verifier::external_body]
pub(crate) fn uint_gauge_set(metric: &mut UIntGauge, value: u64)
    ensures
        uint_gauge_origin(*final(metric)) == uint_gauge_origin(*old(metric)),
        uint_gauge_writes(*final(metric)) == uint_gauge_writes(*old(metric)).push(value),
    opens_invariants none
    no_unwind
{
    metric.inner.set(value)
}

impl MetricVector for UIntGaugeVec {
    type Metric = UIntGauge;

    open spec fn description(&self) -> Description {
        uint_gauge_vec_description(*self)
    }

    open spec fn answered_by(&self, registry: prometheus::Registry, accepted: bool) -> bool {
        uint_gauge_vec_answered(*self, registry, accepted)
    }

    open spec fn removal_answered(&self, label_values: Seq<Seq<char>>, removed: bool) -> bool {
        uint_gauge_vec_removal_answered(*self, label_values, removed)
    }

    open spec fn origin(metric: UIntGauge) -> (UIntGaugeVec, Seq<Seq<char>>) {
        uint_gauge_origin(metric)
    }

    open spec fn is_untouched(metric: UIntGauge) -> bool {
        uint_gauge_writes(metric) == Seq::<u64>::empty()
    }

    fn create(name: &str, help: &str, label_names: &[&str]) -> Result<
        UIntGaugeVec,
        prometheus::Error,
    > {
        uint_gauge_vec_new(name, help, label_names)
    }

    fn register(&self, registry: &prometheus::Registry) -> Result<(), prometheus::Error> {
        uint_gauge_vec_register(self, registry)
    }

    fn get(&self, label_values: &Vec<String>) -> UIntGauge {
        uint_gauge_vec_get(self, label_values)
    }

    fn erase(vec: &Arc<UIntGaugeVec>) -> AnyVector {
        AnyVector::UIntGauge(vec.clone())
    }
}

} // verus!
