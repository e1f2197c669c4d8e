//! Vectors of signed counters.

use std::sync::Arc;

use vstd::prelude::*;

use crate::metrics::any::AnyVector;
use crate::metrics::vector::{Description, MetricVector};
use crate::text::texts;

verus! {

/// A vector of signed counters: `prometheus::core::GenericCounterVec<prometheus::core::AtomicI64>`.
#[verifier::external_body]
pub struct IntCounterVec {
    inner: prometheus::core::GenericCounterVec<prometheus::core::AtomicI64>,
}

/// A signed counter in a vector: `prometheus::core::GenericCounter<prometheus::core::AtomicI64>`.
#[verifier::external_body]
pub struct IntCounter {
    inner: prometheus::core::GenericCounter<prometheus::core::AtomicI64>,
}

/// What the vector was made with.
pub uninterp spec fn int_counter_vec_description(vec: IntCounterVec) -> Description;

/// Whether the registry, asked to export the metrics of the vector, has given this answer.
pub uninterp spec fn int_counter_vec_answered(
    vec: IntCounterVec,
    registry: prometheus::Registry,
    accepted: bool,
) -> bool;

/// Whether the vector, asked to let go of the metric with these label values, has answered whether
/// it did.
pub uninterp spec fn int_counter_vec_removal_answered(
    vec: IntCounterVec,
    label_values: Seq<Seq<char>>,
    removed: bool,
) -> bool;

/// The vector that handed the metric out, and the label values that it was asked for.
pub uninterp spec fn int_counter_origin(metric: IntCounter) -> (IntCounterVec, Seq<Seq<char>>);

/// The amounts that have been added to the counter through this handle, oldest first.
pub uninterp spec fn int_counter_increments(metric: IntCounter) -> Seq<i64>;

/// Calls `GenericCounterVec::new`, which makes an empty vector. It succeeds exactly on a valid
/// description, and the vector keeps that description.
#[verifier::external_body]
fn int_counter_vec_new(name: &str, help: &str, label_names: &[&str]) -> (res: Result<
    IntCounterVec,
    prometheus::Error,
>)
    ensures
        res is Ok <==> Description::of(name, help, label_names).is_valid(),
        res matches Ok(vec) ==> int_counter_vec_description(vec) == Description::of(
            name,
            help,
            label_names,
        ),
{
    let opts = prometheus::Opts::new(name, help);
    let inner = prometheus::core::GenericCounterVec::new(opts, label_names)?;
    Ok(IntCounterVec { inner })
}

/// Calls `Registry::register` with the vector. The result is the registry's answer: success if it
/// accepts the vector, and an error if it does not. Which it is depends on what the registry
/// already holds, and that is not told.
#[verifier::external_body]
fn int_counter_vec_register(vec: &IntCounterVec, registry: &prometheus::Registry) -> (res: Result<
    (),
    prometheus::Error,
>)
    ensures
        int_counter_vec_answered(*vec, *registry, res is Ok),
{
    registry.register(Box::new(vec.inner.clone()))
}

/// Calls `MetricVec::with_label_values`, which hands out the metric for the label values and makes
/// it first where there is none. It panics only if the number of values is not that of the
/// vector's labels. The clauses tell what was asked for: lists of values that read the same when
/// run together are one metric to the crate, and that is not told.
#[verifier::external_body]
fn int_counter_vec_get(vec: &IntCounterVec, label_values: &Vec<String>) -> (metric: IntCounter)
    requires
        label_values@.len() == int_counter_vec_description(*vec).labels.len(),
    ensures
        int_counter_origin(metric) == (*vec, texts(label_values@)),
        int_counter_increments(metric) == Seq::<i64>::empty(),
{
    let values: Vec<&str> = label_values.iter().map(String::as_str).collect();
    IntCounter { inner: vec.inner.with_label_values(&values) }
}

/// Calls `MetricVec::remove_label_values`, which takes the metric for the label values out of the
/// vector. The result is the vector's answer: an error where there is no such metric, and where the
/// number of values is not that of the vector's labels. It does not panic. What the vector holds
/// afterwards is not told, since whoever else holds the vector can change it too.
#[verifier::external_body]
pub(crate) fn int_counter_vec_remove(vec: &IntCounterVec, label_values: &Vec<String>) -> (res: Result<
    (),
    prometheus::Error,
>)
    ensures
        int_counter_vec_removal_answered(*vec, texts(label_values@), res is Ok),
        label_values@.len() != int_counter_vec_description(*vec).labels.len() ==> res is Err,
    opens_invariants none
    no_unwind
{
    let values: Vec<&str> = label_values.iter().map(String::as_str).collect();
    vec.inner.remove_label_values(&values)
}

/// Calls `GenericCounter::inc_by`, which adds the amount to the counter. A debug build panics on
/// a negative amount.
#[verifier::external_body]
pub(crate) fn int_counter_inc_by(metric: &mut IntCounter, amount: i64)
    requires
        amount >= 0,
    ensures
        int_counter_origin(*final(metric)) == int_counter_origin(*old(metric)),
        int_counter_increments(*final(metric)) == int_counter_increments(*old(metric)).push(amount),
    opens_invariants none
    no_unwind
{
    metric.inner.inc_by(amount)
}

impl MetricVector for IntCounterVec {
    type Metric = IntCounter;

    open spec fn description(&self) -> Description {
        int_counter_vec_description(*self)
    }

    open spec fn answered_by(&self, registry: prometheus::Registry, accepted: bool) -> bool {
        int_counter_vec_answered(*self, registry, accepted)
    }

    open spec fn removal_answered(&self, label_values: Seq<Seq<char>>, removed: bool) -> bool {
        int_counter_vec_removal_answered(*self, label_values, removed)
    }

    open spec fn origin(metric: IntCounter) -> (IntCounterVec, Seq<Seq<char>>) {
        int_counter_origin(metric)
    }

    open spec fn is_untouched(metric: IntCounter) -> bool {
        int_counter_increments(metric) == Seq::<i64>::empty()
    }

    fn create(name: &str, help: &str, label_names: &[&str]) -> Result<
        IntCounterVec,
        prometheus::Error,
    > {
        int_counter_vec_new(name, help, label_names)
    }

    fn register(&self, registry: &prometheus::Registry) -> Result<(), prometheus::Error> {
        int_counter_vec_register(self, registry)
    }

    fn get(&self, label_values: &Vec<String>) -> IntCounter {
        int_counter_vec_get(self, label_values)
    }

    fn erase(vec: &Arc<IntCounterVec>) -> AnyVector {
        AnyVector::IntCounter(vec.clone())
    }
}

} // verus!
