//! Sizes of keys and values.

use vstd::prelude::*;

use crate::repr::Row;

verus! {

/// Types that implement this trait expose a length function
pub trait MaybeLength {
    /// The size of the object, if it has one
    spec fn size(&self) -> Option<nat>;

    /// Returns the size of the object
    fn len(&self) -> (res: Option<usize>)
        ensures
            res is Some <==> self.size() is Some,
            res matches Some(n) ==> self.size() == Some(n as nat),
    ;
}

impl MaybeLength for () {
    open spec fn size(&self) -> Option<nat> {
        None
    }

    fn len(&self) -> Option<usize> {
        None
    }
}

impl MaybeLength for Vec<u8> {
    open spec fn size(&self) -> Option<nat> {
        Some(self@.len())
    }

    fn len(&self) -> Option<usize> {
        Some(self.len())
    }
}

impl MaybeLength for Row {
    open spec fn size(&self) -> Option<nat> {
        Some(self@.len())
    }

    fn len(&self) -> Option<usize> {
        Some(self.data().len())
    }
}

impl<T: MaybeLength> MaybeLength for Option<T> {
    open spec fn size(&self) -> Option<nat> {
        match self {
            Some(v) => v.size(),
            None => None,
        }
    }

    fn len(&self) -> Option<usize> {
        match self {
            Some(v) => v.len(),
            None => None,
        }
    }
}

} // verus!
