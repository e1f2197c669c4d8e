//! What the kinds of metric vectors have in common.
//!
//! A metric vector is a collection of metrics that share a name and the names of their labels,
//! and differ in the values of those labels. Its metrics, the children, are kept by the
//! `prometheus` crate, which looks a child up by a hash of its label values.

use std::sync::Arc;

use vstd::prelude::*;

use crate::metrics::any::AnyVector;
use crate::text::{str_texts, texts};

verus! {

/// The error type of the `prometheus` crate. Nothing is known of a value of it.
#[verifier::external_type_specification]
#[verifier::external_body]
pub struct ExError(prometheus::Error);

/// The registry of the `prometheus` crate, from which metrics are exported. Nothing is known of a
/// value of it.
#[verifier::external_type_specification]
#[verifier::external_body]
pub struct ExRegistry(prometheus::Registry);

/// What a metric vector was made with: its name, its help text and the names of its labels.
#[verifier::ext_equal]
pub struct Description {
    pub name: Seq<char>,
    pub help: Seq<char>,
    pub labels: Seq<Seq<char>>,
}

/// Whether a character may start the name of a label.
pub open spec fn is_name_start(c: char) -> bool {
    ||| 'a' <= c <= 'z'
    ||| 'A' <= c <= 'Z'
    ||| c == '_'
}

/// Whether a text is the name of a label: letters, digits and underscores, with no digit in front.
pub open spec fn is_label_name(s: Seq<char>) -> bool {
    &&& s.len() > 0
    &&& is_name_start(s[0])
    &&& forall|i: int| 0 < i < s.len() ==> is_name_start(#[trigger] s[i]) || '0' <= s[i] <= '9'
}

/// Whether a text is the name of a metric: as the name of a label, with colons allowed anywhere.
pub open spec fn is_metric_name(s: Seq<char>) -> bool {
    &&& s.len() > 0
    &&& is_name_start(s[0]) || s[0] == ':'
    &&& forall|i: int|
        0 < i < s.len() ==> is_name_start(#[trigger] s[i]) || s[i] == ':' || '0' <= s[i] <= '9'
}

impl Description {
    /// The description put together from executable texts.
    pub open spec fn of(name: &str, help: &str, label_names: &[&str]) -> Description {
        Description { name: name@, help: help@, labels: str_texts(label_names@) }
    }

    /// Whether metrics can be described so: there is a help text, the names are well spelled and
    /// no label occurs twice.
    pub open spec fn is_valid(self) -> bool {
        &&& self.help.len() > 0
        &&& is_metric_name(self.name)
        &&& forall|i: int| 0 <= i < self.labels.len() ==> is_label_name(#[trigger] self.labels[i])
        &&& self.labels.no_duplicates()
    }
}

/// A kind of metric vector.
pub trait MetricVector: Sized {
    /// The metrics in a vector of this kind.
    type Metric;

    /// What the vector was made with.
    spec fn description(&self) -> Description;

    /// Whether the registry, asked to export the metrics of the vector, has given this answer.
    spec fn answered_by(&self, registry: prometheus::Registry, accepted: bool) -> bool;

    /// Whether the vector, asked to let go of the metric with these label values, has answered
    /// whether it did.
    spec fn removal_answered(&self, label_values: Seq<Seq<char>>, removed: bool) -> bool;

    /// The vector that handed the metric out, and the label values that it was asked for.
    spec fn origin(metric: Self::Metric) -> (Self, Seq<Seq<char>>);

    /// Whether nothing has been written to the metric through this handle.
    spec fn is_untouched(metric: Self::Metric) -> bool;

    /// Makes an empty vector.
    fn create(name: &str, help: &str, label_names: &[&str]) -> (res: Result<
        Self,
        prometheus::Error,
    >)
        ensures
            res is Ok <==> Description::of(name, help, label_names).is_valid(),
            res matches Ok(vec) ==> vec.description() == Description::of(name, help, label_names),
    ;

    /// Asks a registry to export the metrics of the vector. Fails exactly if the registry answers
    /// that it does not accept the vector.
    fn register(&self, registry: &prometheus::Registry) -> (res: Result<(), prometheus::Error>)
        ensures
            self.answered_by(*registry, res is Ok),
    ;

    /// Hands out the metric with the given label values, which the vector holds from then on.
    fn get(&self, label_values: &Vec<String>) -> (metric: Self::Metric)
        requires
            label_values@.len() == self.description().labels.len(),
        ensures
            Self::origin(metric) == (*self, texts(label_values@)),
            Self::is_untouched(metric),
    ;

    /// The vector with its kind told at run time.
    fn erase(vec: &Arc<Self>) -> (any: AnyVector)
        ensures
            forall|label_values: Seq<Seq<char>>, removed: bool| #[trigger]
                any.removal_answered(label_values, removed) == vec.removal_answered(
                    label_values,
                    removed,
                ),
    ;
}

} // verus!
