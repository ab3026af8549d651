//! What one allocation holds: a variant's value and the tag it was stored
//! under.

use vstd::prelude::*;
use crate::tagged_ptr::MAX_VARIANTS;

verus! {

/// What a tagged value stands for: one variant of a closed set and the tag
/// that says which.
pub ghost struct Tagged<V> {
    pub tag: nat,
    pub value: V,
}

/// `value` held under `tag`.
pub open spec fn tagged<V>(value: V, tag: u8) -> Tagged<V> {
    Tagged { tag: tag as nat, value }
}

/// A variant's value together with its tag, which is always below 128.
pub(crate) struct Slot<V> {
    tag: u8,
    value: V,
}

impl<V> View for Slot<V> {
    type V = Tagged<V>;

    closed spec fn view(&self) -> Tagged<V> {
        tagged(self.value, self.tag)
    }
}

impl<V> Slot<V> {
    #[verifier::type_invariant]
    spec fn tag_in_range(self) -> bool {
        self.tag < MAX_VARIANTS
    }

    /// Stores `value` under `tag`.
    pub(crate) fn new(value: V, tag: u8) -> (r: Self)
        requires
            tag < MAX_VARIANTS,
        ensures
            r@ == tagged(value, tag),
    {
        Slot { tag, value }
    }

    /// The tag the value was stored under.
    pub(crate) fn tag(&self) -> (t: u8)
        ensures
            t == self@.tag,
            t < MAX_VARIANTS,
    {
        proof {
            use_type_invariant(self);
        }
        self.tag
    }

    /// The stored value.
    pub(crate) fn value(&self) -> (r: &V)
        ensures
            *r == self@.value,
    {
        &self.value
    }

    /// Takes the stored value out.
    pub(crate) fn into_value(self) -> (r: V)
        ensures
            r == self@.value,
    {
        self.value
    }
}

} // verus!
