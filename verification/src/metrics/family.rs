//! Metric vectors with a known number of labels.

use std::sync::Arc;

use vstd::prelude::*;

use crate::metrics::delete_on_drop::DeleteOnDropMetric;
use crate::metrics::vector::{Description, MetricVector};
use crate::text::texts;

verus! {

/// Why a family could not be registered.
#[derive(Debug)]
pub enum RegisterError {
    /// The name, the help text or a label name is not valid, or a label name occurs twice.
    Description(prometheus::Error),
    /// The registry did not accept the family.
    Registry(prometheus::Error),
}

/// A metric vector with `N` labels.
pub struct Family<V: MetricVector, const N: usize> {
    vec: Arc<V>,
}

impl<V: MetricVector, const N: usize> Family<V, N> {
    /// The metric vector.
    pub closed spec fn vec(&self) -> V {
        *self.vec
    }

    #[verifier::type_invariant]
    closed spec fn inv(&self) -> bool {
        self.vec.description().labels.len() == N
    }

    /// Makes an empty family and has a registry export its metrics.
    pub fn register(
        registry: &prometheus::Registry,
        name: &str,
        help: &str,
        label_names: &[&str; N],
    ) -> (res: Result<Self, RegisterError>)
        ensures
            res matches Err(RegisterError::Description(_)) <==> !Description::of(
                name,
                help,
                label_names,
            ).is_valid(),
            res matches Ok(family) ==> {
                &&& family.vec().description() == Description::of(name, help, label_names)
                &&& family.vec().answered_by(*registry, true)
            },
            res matches Err(RegisterError::Registry(_)) ==> exists|vec: V|
                {
                    &&& #[trigger] vec.description() == Description::of(name, help, label_names)
                    &&& vec.answered_by(*registry, false)
                },
    {
        let vec = match V::create(name, help, label_names.as_slice()) {
            Ok(vec) => vec,
            Err(error) => return Err(RegisterError::Description(error)),
        };
        match vec.register(registry) {
            Ok(()) => Ok(Family { vec: Arc::new(vec) }),
            Err(error) => Err(RegisterError::Registry(error)),
        }
    }

    /// Takes the metric with the given label values, until it is dropped.
    pub fn get_delete_on_drop(&self, labels: Vec<String>) -> (res: DeleteOnDropMetric<V>)
        requires
            labels@.len() == N,
        ensures
            res.is_new(self.vec(), texts(labels@)),
    {
        proof {
            use_type_invariant(self);
        }
        DeleteOnDropMetric::from_metric_vector(self.vec.clone(), labels)
    }
}

} // verus!
