//! Owned values: each holds one heap allocation of its own and frees it when
//! it goes away.

use vstd::prelude::*;
use crate::allocator::storage_address;
use crate::slot::tagged;
use crate::slot::Slot;
use crate::slot::Tagged;
use crate::tagged_ptr::MAX_VARIANTS;
use crate::tagged_ptr::TaggedPtr;

verus! {

/// One value out of a closed set of variants, stored in a heap allocation
/// that this value alone owns.
///
/// The value is one pointer wide. Cloning it copies the variant into a new
/// allocation; dropping it frees the allocation.
pub struct OwnedValue<V> {
    slot: Box<Slot<V>>,
}

impl<V> View for OwnedValue<V> {
    type V = Tagged<V>;

    closed spec fn view(&self) -> Tagged<V> {
        self.slot@
    }
}

impl<V> OwnedValue<V> {
    /// Moves `value` into a heap allocation of its own, under `tag`.
    pub fn new(value: V, tag: u8) -> (r: Self)
        requires
            tag < MAX_VARIANTS,
        ensures
            r@ == tagged(value, tag),
    {
        OwnedValue { slot: Box::new(Slot::new(value, tag)) }
    }

    /// The tag of the variant held.
    pub fn tag(&self) -> (t: u8)
        ensures
            t == self@.tag,
            t < MAX_VARIANTS,
    {
        self.slot.tag()
    }

    /// The variant held.
    pub fn get(&self) -> (r: &V)
        ensures
            *r == self@.value,
    {
        self.slot.value()
    }

    /// Gives the variant back and frees the allocation.
    pub fn into_inner(self) -> (r: V)
        ensures
            r == self@.value,
    {
        let slot: Slot<V> = *self.slot;
        slot.into_value()
    }

    /// The address at which the variant is stored, as the allocator chose
    /// it.
    pub fn address(&self) -> usize {
        storage_address(self.slot.value())
    }

    /// The tag and the address of the variant in one word, or `None` where
    /// the address reaches into the bits that the tag needs.
    pub fn tagged_ptr(&self) -> (r: Option<TaggedPtr<V>>)
        ensures
            r is Some ==> r->0@.tag == self@.tag,
    {
        TaggedPtr::try_new(self.address(), self.tag())
    }
}

impl<V: Clone> Clone for OwnedValue<V> {
    /// Copies the variant into a new allocation, under the same tag.
    fn clone(&self) -> (r: Self)
        ensures
            r@.tag == self@.tag,
            cloned(self@.value, r@.value),
    {
        OwnedValue::new(self.slot.value().clone(), self.slot.tag())
    }
}

} // verus!
