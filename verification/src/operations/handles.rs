//! Metric vectors and the handles of their metrics.

use std::sync::Arc;

use vstd::prelude::*;

use crate::metrics::any::AnyVector;
use crate::metrics::delete_on_drop::{
    int_counter_state, int_gauge_state, uint_counter_state, uint_gauge_state, DeleteOnDropMetric,
};
use crate::metrics::family::{Family, RegisterError};
use crate::metrics::float_gauge::{
    float_gauge_origin, float_gauge_vec_answered, float_gauge_vec_description,
    float_gauge_vec_removal_answered, FloatGauge, FloatGaugeVec,
};
use crate::metrics::int_counter::{
    int_counter_increments, int_counter_origin, int_counter_vec_answered,
    int_counter_vec_description, int_counter_vec_removal_answered, IntCounter, IntCounterVec,
};
use crate::metrics::int_gauge::{
    int_gauge_origin, int_gauge_vec_answered, int_gauge_vec_description,
    int_gauge_vec_removal_answered, int_gauge_writes, IntGauge, IntGaugeVec,
};
use crate::metrics::uint_counter::{
    uint_counter_increments, uint_counter_origin, uint_counter_vec_answered,
    uint_counter_vec_description, uint_counter_vec_removal_answered, UIntCounter, UIntCounterVec,
};
use crate::metrics::uint_gauge::{
    uint_gauge_origin, uint_gauge_vec_answered, uint_gauge_vec_description,
    uint_gauge_vec_removal_answered, uint_gauge_writes, UIntGauge, UIntGaugeVec,
};
use crate::metrics::vector::{is_label_name, is_metric_name, Description, MetricVector};
use crate::text::texts;

verus! {

broadcast use {uint_gauge_state, int_gauge_state, uint_counter_state, int_counter_state};

/// A handle taken from a family is one of the family's vector, under exactly the label values that
/// were asked for, in their order. So is the metric behind it, and nothing has been written to it.
pub proof fn handles_are_what_was_asked_for<V: MetricVector, const N: usize>(
    family: &Family<V, N>,
    labels: Vec<String>,
    res: DeleteOnDropMetric<V>,
)
    requires
        call_ensures(Family::<V, N>::get_delete_on_drop, (family, labels), res),
    ensures
        res.vec() == family.vec(),
        res.labels().len() == labels@.len(),
        forall|i: int| 0 <= i < labels@.len() ==> #[trigger] res.labels()[i] == labels@[i]@,
        V::origin(res.inner()).0 == family.vec(),
        V::origin(res.inner()).1 == res.labels(),
        V::is_untouched(res.inner()),
{
}

/// A handle taken from a vector is one of that vector, under exactly the label values that were
/// asked for, in their order. So is the metric behind it, and nothing has been written to it.
pub proof fn handles_belong_to_their_vector<V: MetricVector>(
    vec: Arc<V>,
    labels: Vec<String>,
    res: DeleteOnDropMetric<V>,
)
    requires
        call_ensures(DeleteOnDropMetric::<V>::from_metric_vector, (vec, labels), res),
    ensures
        res.vec() == *vec,
        res.labels().len() == labels@.len(),
        forall|i: int| 0 <= i < labels@.len() ==> #[trigger] res.labels()[i] == labels@[i]@,
        V::origin(res.inner()).0 == *vec,
        V::origin(res.inner()).1 == res.labels(),
        V::is_untouched(res.inner()),
{
}

/// Setting an unsigned gauge sets the metric behind the handle once, to the value given. It stays
/// the metric of the same vector, under the same label values.
pub proof fn uint_gauge_handles_write_what_they_are_given(
    handle: &mut DeleteOnDropMetric<UIntGaugeVec>,
    value: u64,
)
    requires
        call_ensures(DeleteOnDropMetric::<UIntGaugeVec>::set, (handle, value), ()),
    ensures
        uint_gauge_writes(final(handle).inner()) == uint_gauge_writes(old(handle).inner()).push(
            value,
        ),
        final(handle).vec() == old(handle).vec(),
        final(handle).labels() == old(handle).labels(),
        uint_gauge_origin(final(handle).inner()) == (old(handle).vec(), old(handle).labels()),
        final(handle)@.writes == old(handle)@.writes.push(value),
{
}

/// Setting a signed gauge sets the metric behind the handle once, to the value given. It stays the
/// metric of the same vector, under the same label values.
pub proof fn int_gauge_handles_write_what_they_are_given(
    handle: &mut DeleteOnDropMetric<IntGaugeVec>,
    value: i64,
)
    requires
        call_ensures(DeleteOnDropMetric::<IntGaugeVec>::set, (handle, value), ()),
    ensures
        int_gauge_writes(final(handle).inner()) == int_gauge_writes(old(handle).inner()).push(
            value,
        ),
        final(handle).vec() == old(handle).vec(),
        final(handle).labels() == old(handle).labels(),
        int_gauge_origin(final(handle).inner()) == (old(handle).vec(), old(handle).labels()),
        final(handle)@.writes == old(handle)@.writes.push(value),
{
}

/// Adding to an unsigned counter adds the amount given, once, to the metric behind the handle. It
/// stays the metric of the same vector, under the same label values.
pub proof fn uint_counter_handles_write_what_they_are_given(
    handle: &mut DeleteOnDropMetric<UIntCounterVec>,
    amount: u64,
)
    requires
        call_ensures(DeleteOnDropMetric::<UIntCounterVec>::inc_by, (handle, amount), ()),
    ensures
        uint_counter_increments(final(handle).inner())
            == uint_counter_increments(old(handle).inner()).push(
            amount,
        ),
        final(handle).vec() == old(handle).vec(),
        final(handle).labels() == old(handle).labels(),
        uint_counter_origin(final(handle).inner()) == (old(handle).vec(), old(handle).labels()),
        final(handle)@.increments == old(handle)@.increments.push(amount),
{
}

/// Adding to a signed counter adds the amount given, once, to the metric behind the handle. It
/// stays the metric of the same vector, under the same label values.
pub proof fn int_counter_handles_write_what_they_are_given(
    handle: &mut DeleteOnDropMetric<IntCounterVec>,
    amount: i64,
)
    requires
        call_ensures(DeleteOnDropMetric::<IntCounterVec>::inc_by, (handle, amount), ()),
    ensures
        int_counter_increments(final(handle).inner())
            == int_counter_increments(old(handle).inner()).push(
            amount,
        ),
        final(handle).vec() == old(handle).vec(),
        final(handle).labels() == old(handle).labels(),
        int_counter_origin(final(handle).inner()) == (old(handle).vec(), old(handle).labels()),
        final(handle)@.increments == old(handle)@.increments.push(amount),
{
}

/// What is said of any vector is said, of vectors of unsigned gauges, by the names of their own
/// calls.
pub proof fn uint_gauge_vectors_are_vectors(
    vec: UIntGaugeVec,
    metric: UIntGauge,
    registry: prometheus::Registry,
    label_values: Seq<Seq<char>>,
    answer: bool,
)
    ensures
        vec.description() == uint_gauge_vec_description(vec),
        vec.answered_by(registry, answer) == uint_gauge_vec_answered(vec, registry, answer),
        vec.removal_answered(label_values, answer) == uint_gauge_vec_removal_answered(
            vec,
            label_values,
            answer,
        ),
        UIntGaugeVec::origin(metric) == uint_gauge_origin(metric),
        UIntGaugeVec::is_untouched(metric) <==> uint_gauge_writes(metric).len() == 0,
{
    assert(uint_gauge_writes(metric).len()
        == 0 ==> uint_gauge_writes(metric) =~= Seq::<u64>::empty());
}

/// What is said of any vector is said, of vectors of signed gauges, by the names of their own
/// calls.
pub proof fn int_gauge_vectors_are_vectors(
    vec: IntGaugeVec,
    metric: IntGauge,
    registry: prometheus::Registry,
    label_values: Seq<Seq<char>>,
    answer: bool,
)
    ensures
        vec.description() == int_gauge_vec_description(vec),
        vec.answered_by(registry, answer) == int_gauge_vec_answered(vec, registry, answer),
        vec.removal_answered(label_values, answer) == int_gauge_vec_removal_answered(
            vec,
            label_values,
            answer,
        ),
        IntGaugeVec::origin(metric) == int_gauge_origin(metric),
        IntGaugeVec::is_untouched(metric) <==> int_gauge_writes(metric).len() == 0,
{
    assert(int_gauge_writes(metric).len()
        == 0 ==> int_gauge_writes(metric) =~= Seq::<i64>::empty());
}

/// What is said of any vector is said, of vectors of floating-point gauges, by the names of their
/// own calls.
pub proof fn float_gauge_vectors_are_vectors(
    vec: FloatGaugeVec,
    metric: FloatGauge,
    registry: prometheus::Registry,
    label_values: Seq<Seq<char>>,
    answer: bool,
)
    ensures
        vec.description() == float_gauge_vec_description(vec),
        vec.answered_by(registry, answer) == float_gauge_vec_answered(vec, registry, answer),
        vec.removal_answered(label_values, answer) == float_gauge_vec_removal_answered(
            vec,
            label_values,
            answer,
        ),
        FloatGaugeVec::origin(metric) == float_gauge_origin(metric),
{
}

/// What is said of any vector is said, of vectors of unsigned counters, by the names of their own
/// calls.
pub proof fn uint_counter_vectors_are_vectors(
    vec: UIntCounterVec,
    metric: UIntCounter,
    registry: prometheus::Registry,
    label_values: Seq<Seq<char>>,
    answer: bool,
)
    ensures
        vec.description() == uint_counter_vec_description(vec),
        vec.answered_by(registry, answer) == uint_counter_vec_answered(vec, registry, answer),
        vec.removal_answered(label_values, answer) == uint_counter_vec_removal_answered(
            vec,
            label_values,
            answer,
        ),
        UIntCounterVec::origin(metric) == uint_counter_origin(metric),
        UIntCounterVec::is_untouched(metric) <==> uint_counter_increments(metric).len() == 0,
{
    assert(uint_counter_increments(metric).len()
        == 0 ==> uint_counter_increments(metric) =~= Seq::<u64>::empty());
}

/// What is said of any vector is said, of vectors of signed counters, by the names of their own
/// calls.
pub proof fn int_counter_vectors_are_vectors(
    vec: IntCounterVec,
    metric: IntCounter,
    registry: prometheus::Registry,
    label_values: Seq<Seq<char>>,
    answer: bool,
)
    ensures
        vec.description() == int_counter_vec_description(vec),
        vec.answered_by(registry, answer) == int_counter_vec_answered(vec, registry, answer),
        vec.removal_answered(label_values, answer) == int_counter_vec_removal_answered(
            vec,
            label_values,
            answer,
        ),
        IntCounterVec::origin(metric) == int_counter_origin(metric),
        IntCounterVec::is_untouched(metric) <==> int_counter_increments(metric).len() == 0,
{
    assert(int_counter_increments(metric).len()
        == 0 ==> int_counter_increments(metric) =~= Seq::<i64>::empty());
}

/// A vector of unsigned gauges hands out the metric of its own with exactly the label values that
/// it is asked for, in their order.
pub proof fn uint_gauge_vectors_hand_out_their_metrics(
    vec: &UIntGaugeVec,
    label_values: &Vec<String>,
    metric: UIntGauge,
)
    requires
        call_ensures(<UIntGaugeVec as MetricVector>::get, (vec, label_values), metric),
    ensures
        uint_gauge_origin(metric).0 == *vec,
        uint_gauge_origin(metric).1.len() == label_values@.len(),
        forall|i: int|
            0 <= i < label_values@.len() ==> #[trigger] uint_gauge_origin(metric).1[i]
                == label_values@[i]@,
        uint_gauge_writes(metric) == Seq::<u64>::empty(),
{
}

/// A vector of signed gauges hands out the metric of its own with exactly the label values that it
/// is asked for, in their order.
pub proof fn int_gauge_vectors_hand_out_their_metrics(
    vec: &IntGaugeVec,
    label_values: &Vec<String>,
    metric: IntGauge,
)
    requires
        call_ensures(<IntGaugeVec as MetricVector>::get, (vec, label_values), metric),
    ensures
        int_gauge_origin(metric).0 == *vec,
        int_gauge_origin(metric).1.len() == label_values@.len(),
        forall|i: int|
            0 <= i < label_values@.len() ==> #[trigger] int_gauge_origin(metric).1[i]
                == label_values@[i]@,
        int_gauge_writes(metric) == Seq::<i64>::empty(),
{
}

/// A vector of floating-point gauges hands out the metric of its own with exactly the label values
/// that it is asked for, in their order.
pub proof fn float_gauge_vectors_hand_out_their_metrics(
    vec: &FloatGaugeVec,
    label_values: &Vec<String>,
    metric: FloatGauge,
)
    requires
        call_ensures(<FloatGaugeVec as MetricVector>::get, (vec, label_values), metric),
    ensures
        float_gauge_origin(metric).0 == *vec,
        float_gauge_origin(metric).1.len() == label_values@.len(),
        forall|i: int|
            0 <= i < label_values@.len() ==> #[trigger] float_gauge_origin(metric).1[i]
                == label_values@[i]@,
{
}

/// A vector of unsigned counters hands out the metric of its own with exactly the label values that
/// it is asked for, in their order.
pub proof fn uint_counter_vectors_hand_out_their_metrics(
    vec: &UIntCounterVec,
    label_values: &Vec<String>,
    metric: UIntCounter,
)
    requires
        call_ensures(<UIntCounterVec as MetricVector>::get, (vec, label_values), metric),
    ensures
        uint_counter_origin(metric).0 == *vec,
        uint_counter_origin(metric).1.len() == label_values@.len(),
        forall|i: int|
            0 <= i < label_values@.len() ==> #[trigger] uint_counter_origin(metric).1[i]
                == label_values@[i]@,
        uint_counter_increments(metric) == Seq::<u64>::empty(),
{
}

/// A vector of signed counters hands out the metric of its own with exactly the label values that
/// it is asked for, in their order.
pub proof fn int_counter_vectors_hand_out_their_metrics(
    vec: &IntCounterVec,
    label_values: &Vec<String>,
    metric: IntCounter,
)
    requires
        call_ensures(<IntCounterVec as MetricVector>::get, (vec, label_values), metric),
    ensures
        int_counter_origin(metric).0 == *vec,
        int_counter_origin(metric).1.len() == label_values@.len(),
        forall|i: int|
            0 <= i < label_values@.len() ==> #[trigger] int_counter_origin(metric).1[i]
                == label_values@[i]@,
        int_counter_increments(metric) == Seq::<i64>::empty(),
{
}

/// A vector asked to let go of a metric is asked for exactly the label values given, in their
/// order, and what it answers is told.
pub proof fn removal_is_asked_for_the_given_labels(
    vec: &AnyVector,
    label_values: &Vec<String>,
    res: Result<(), prometheus::Error>,
    asked: Seq<Seq<char>>,
)
    requires
        call_ensures(AnyVector::remove, (vec, label_values), res),
        asked.len() == label_values@.len(),
        forall|i: int| 0 <= i < asked.len() ==> #[trigger] asked[i] == label_values@[i]@,
    ensures
        match vec {
            AnyVector::UIntGauge(v) => uint_gauge_vec_removal_answered(**v, asked, res is Ok),
            AnyVector::IntGauge(v) => int_gauge_vec_removal_answered(**v, asked, res is Ok),
            AnyVector::FloatGauge(v) => float_gauge_vec_removal_answered(**v, asked, res is Ok),
            AnyVector::UIntCounter(v) => uint_counter_vec_removal_answered(**v, asked, res is Ok),
            AnyVector::IntCounter(v) => int_counter_vec_removal_answered(**v, asked, res is Ok),
        },
{
    assert(asked =~= texts(label_values@));
}

/// A description holds the name, the help text and the names of the labels, in their order.
pub proof fn descriptions_hold_their_parts(name: &str, help: &str, label_names: &[&str])
    ensures
        Description::of(name, help, label_names).name == name@,
        Description::of(name, help, label_names).help == help@,
        Description::of(name, help, label_names).labels.len() == label_names@.len(),
        forall|i: int|
            0 <= i < label_names@.len() ==> #[trigger] Description::of(
                name,
                help,
                label_names,
            ).labels[i] == label_names@[i]@,
{
}

/// A family has the name, the help text and the label names that it was registered with, and the
/// registry has accepted it. It is refused for its description exactly if there is no help text, a
/// name is misspelled or two labels have the same name.
pub proof fn families_are_what_was_registered<V: MetricVector, const N: usize>(
    registry: &prometheus::Registry,
    name: &str,
    help: &str,
    label_names: &[&str; N],
    res: Result<Family<V, N>, RegisterError>,
)
    requires
        call_ensures(Family::<V, N>::register, (registry, name, help, label_names), res),
    ensures
        res matches Err(RegisterError::Description(_)) <==> {
            ||| help@.len() == 0
            ||| !is_metric_name(name@)
            ||| exists|i: int| 0 <= i < N && !is_label_name(#[trigger] label_names@[i]@)
            ||| exists|i: int, j: int|
                0 <= i < j < N && (#[trigger] label_names@[i])@ == (#[trigger] label_names@[j])@
        },
        res matches Ok(family) ==> {
            let description = family.vec().description();
            &&& description.name == name@
            &&& description.help == help@
            &&& description.labels.len() == N
            &&& forall|i: int|
                0 <= i < N ==> #[trigger] description.labels[i] == label_names@[i]@
            &&& family.vec().answered_by(*registry, true)
        },
        res matches Err(RegisterError::Registry(_)) ==> exists|vec: V|
            {
                &&& #[trigger] vec.answered_by(*registry, false)
                &&& vec.description().name == name@
                &&& vec.description().help == help@
                &&& vec.description().labels.len() == N
                &&& forall|i: int|
                    0 <= i < N ==> #[trigger] vec.description().labels[i] == label_names@[i]@
            },
{
    let labels = Description::of(name, help, label_names).labels;
    assert(labels.len() == N);
    assert(forall|i: int| 0 <= i < N ==> #[trigger] label_names@[i]@ == labels[i]);
    assert(forall|i: int| 0 <= i < N ==> #[trigger] labels[i] == label_names@[i]@);
    if exists|i: int, j: int|
        0 <= i < j < N && (#[trigger] label_names@[i])@ == (#[trigger] label_names@[j])@ {
        let (i, j) = choose|i: int, j: int|
            0 <= i < j < N && (#[trigger] label_names@[i])@ == (#[trigger] label_names@[j])@;
        assert(labels[i] == labels[j]);
    } else {
        assert forall|i: int, j: int| 0 <= i < N && 0 <= j < N && i != j implies labels[i]
            != labels[j] by {
            assert(label_names@[i]@ != label_names@[j]@);
        }
    }
}

/// One character is the name of a label if it is a letter or an underscore, and the name of a
/// metric if it is one of these or a colon. Nothing shorter is a name.
pub proof fn names_start_without_a_digit(c: char)
    ensures
        !is_label_name(Seq::<char>::empty()),
        !is_metric_name(Seq::<char>::empty()),
        is_label_name(seq![c]) <==> ('a' <= c <= 'z' || 'A' <= c <= 'Z' || c == '_'),
        is_metric_name(seq![c]) <==> ('a' <= c <= 'z' || 'A' <= c <= 'Z' || c == '_' || c == ':'),
{
}

/// A longer text is a name if it is one without its last character, and that character is a letter,
/// a digit or an underscore, or, in the name of a metric, a colon.
pub proof fn names_go_on_with_letters_and_digits(s: Seq<char>, c: char)
    requires
        s.len() > 0,
    ensures
        is_label_name(s.push(c)) <==> is_label_name(s) && ('a' <= c <= 'z' || 'A' <= c <= 'Z' || c
            == '_' || '0' <= c <= '9'),
        is_metric_name(s.push(c)) <==> is_metric_name(s) && ('a' <= c <= 'z' || 'A' <= c <= 'Z'
            || c == '_' || c == ':' || '0' <= c <= '9'),
{
    let longer = s.push(c);
    assert(longer[s.len() as int] == c);
    assert(forall|i: int| 0 <= i < s.len() ==> #[trigger] longer[i] == s[i]);
    assert(forall|i: int| 0 <= i < s.len() ==> #[trigger] s[i] == longer[i]);
}

} // verus!
