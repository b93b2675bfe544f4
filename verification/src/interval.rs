//! Numeric ranges with strict containment and saturating clamp.
//!
//! An [`Interval`] serves two roles in the renderer: as the acceptance
//! window for ray parameters during intersection testing (where strict
//! containment rejects self-intersections at the boundary) and as the
//! clamp applied to accumulated color channels before quantization.

use core::cmp::Ordering;
use vstd::laws_cmp::obeys_partial_cmp_spec_properties;
use vstd::prelude::*;
use vstd::std_specs::cmp::PartialOrdSpec;

verus! {

/// A range of scalar values with lower bound `min` and upper bound `max`.
///
/// Construction does not enforce `min <= max`; operations that need a
/// well-ordered pair of bounds document that expectation through
/// [`well_formed`].
pub struct Interval<T> {
    pub min: T,
    pub max: T,
}

/// `value` lies strictly between the bounds: `min < value` and `value < max`.
pub open spec fn surrounds_spec<T: PartialOrd>(i: Interval<T>, value: T) -> bool {
    &&& i.min.partial_cmp_spec(&value) == Some(Ordering::Less)
    &&& value.partial_cmp_spec(&i.max) == Some(Ordering::Less)
}

/// `value` saturated into the bounds: `min` if `value < min`, `max` if
/// `value > max`, and `value` itself otherwise.
pub open spec fn clamp_spec<T: PartialOrd>(i: Interval<T>, value: T) -> T {
    if value.partial_cmp_spec(&i.min) == Some(Ordering::Less) {
        i.min
    } else if value.partial_cmp_spec(&i.max) == Some(Ordering::Greater) {
        i.max
    } else {
        value
    }
}

/// The lower bound does not lie strictly above the upper bound. This holds
/// in particular whenever `min <= max`, the shape every caller in the
/// renderer supplies.
pub open spec fn well_formed<T: PartialOrd>(i: Interval<T>) -> bool {
    i.min.partial_cmp_spec(&i.max) != Some(Ordering::Greater)
}

impl<T> Interval<T> {
    /// An interval with the given bounds, stored as supplied.
    pub fn new(min: T, max: T) -> (r: Self)
        ensures
            r.min == min,
            r.max == max,
    {
        Interval { min, max }
    }

    /// Whether `value` lies strictly inside the interval.
    ///
    /// The result is pinned down whenever `T`'s comparison operators agree
    /// with its mathematical ordering, which holds for every primitive
    /// integer type.
    pub fn surrounds(&self, value: &T) -> (r: bool) where T: PartialOrd
        ensures
            T::obeys_partial_cmp_spec() ==> r == surrounds_spec(*self, *value),
    {
        &self.min < value && value < &self.max
    }

    /// `value` saturated to the interval's bounds.
    pub fn clamp(&self, value: &T) -> (r: T) where T: PartialOrd + Copy
        ensures
            T::obeys_partial_cmp_spec() ==> r == clamp_spec(*self, *value),
    {
        if value < &self.min {
            self.min
        } else if value > &self.max {
            self.max
        } else {
            *value
        }
    }
}

/// Strict containment excludes both endpoints: an interval never surrounds
/// its own `min` or its own `max`, whatever its bounds.
pub proof fn lemma_surrounds_excludes_endpoints<T: PartialOrd>(i: Interval<T>)
    requires
        obeys_partial_cmp_spec_properties::<T>(),
    ensures
        !surrounds_spec(i, i.min),
        !surrounds_spec(i, i.max),
{
    reveal(obeys_partial_cmp_spec_properties);
    assert(i.min.partial_cmp_spec(&i.min) != Some(Ordering::Less));
    assert(i.max.partial_cmp_spec(&i.max) != Some(Ordering::Less));
}

/// Clamping is idempotent: clamping a value that has already been clamped
/// into a well-formed interval changes nothing.
pub proof fn lemma_clamp_idempotent<T: PartialOrd>(i: Interval<T>, value: T)
    requires
        obeys_partial_cmp_spec_properties::<T>(),
        well_formed(i),
    ensures
        clamp_spec(i, clamp_spec(i, value)) == clamp_spec(i, value),
{
    reveal(obeys_partial_cmp_spec_properties);
    assert(i.min.partial_cmp_spec(&i.min) != Some(Ordering::Less));
    assert(i.max.partial_cmp_spec(&i.max) != Some(Ordering::Greater));
    assert(i.max.partial_cmp_spec(&i.min) != Some(Ordering::Less));
}

} // verus!
