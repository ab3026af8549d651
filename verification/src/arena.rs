//! Arena values: many values share one region, which frees them all at once.

use vstd::prelude::*;
use crate::allocator::storage_address;
use crate::allocator::bump_allocated_bytes;
use crate::allocator::bump_chunk_capacity;
use crate::allocator::bump_fresh;
use crate::allocator::bump_place;
use crate::allocator::typed_fresh;
use crate::allocator::typed_place;
use crate::slot::tagged;
use crate::slot::Slot;
use crate::slot::Tagged;
use crate::tagged_ptr::MAX_VARIANTS;
use crate::tagged_ptr::TaggedPtr;

verus! {

/// How much memory a region holds.
#[derive(Debug, Clone, Copy)]
pub struct ArenaStats {
    /// Bytes that the region has taken from the surrounding allocator.
    pub allocated_bytes: usize,
    /// Bytes still free in the region's current chunk.
    pub chunk_capacity: usize,
}

impl ArenaStats {
    /// The statistics of a region that reports nothing.
    pub open spec fn zeroed() -> ArenaStats {
        ArenaStats { allocated_bytes: 0, chunk_capacity: 0 }
    }

    /// The statistics of a region that reports these two numbers.
    pub fn reported(allocated_bytes: usize, chunk_capacity: usize) -> (r: Self)
        ensures
            r == (ArenaStats { allocated_bytes, chunk_capacity }),
    {
        ArenaStats { allocated_bytes, chunk_capacity }
    }
}

impl Default for ArenaStats {
    fn default() -> (r: Self)
        ensures
            r == ArenaStats::zeroed(),
    {
        ArenaStats { allocated_bytes: 0, chunk_capacity: 0 }
    }
}

/// Why a builder could not do what it was asked.
#[derive(Debug, Clone, Copy, PartialEq, Eq, Structural)]
pub enum ArenaError {
    /// The region belongs to someone else, who may still hold values in it,
    /// so the builder will not reset or clear it.
    ExternalRegion,
    /// The region could not reserve the space for another value.
    OutOfMemory,
}

impl ArenaError {
    /// The error in words.
    pub fn message(&self) -> (r: &'static str)
        ensures
            *self == ArenaError::ExternalRegion ==> r@
                == "Cannot reset builder using external arena"@,
            *self == ArenaError::OutOfMemory ==> r@ == "out of memory"@,
    {
        match self {
            ArenaError::ExternalRegion => "Cannot reset builder using external arena",
            ArenaError::OutOfMemory => "out of memory",
        }
    }
}

/// How a region stores the values placed in it.
#[derive(Debug, Clone, Copy, PartialEq, Eq, Structural)]
pub enum Strategy {
    /// A typed arena, which reports no statistics.
    Typed,
    /// An untyped bump region, which reports how much memory it holds.
    Bump,
}

/// A factory of arena values that can throw all of them away at once.
pub trait ArenaBuilder<'a>: Sized {
    /// Whether the region is the builder's own, so that the builder may
    /// invalidate what the region holds.
    spec fn owns_region(&self) -> bool;

    /// A builder with a region of its own.
    fn new() -> (r: Self)
        ensures
            r.owns_region(),
    ;

    /// Invalidates every value placed so far. A builder that borrows its
    /// region refuses and leaves the region alone.
    fn reset(&mut self) -> (r: Result<(), ArenaError>)
        ensures
            r is Ok <==> old(self).owns_region(),
            final(self).owns_region() == old(self).owns_region(),
    ;

    /// Invalidates every value placed so far and gives the memory back where
    /// that is possible. A builder that borrows its region refuses.
    fn clear(&mut self) -> (r: Result<(), ArenaError>)
        ensures
            r is Ok <==> old(self).owns_region(),
            final(self).owns_region() == old(self).owns_region(),
    ;

    /// How much memory the region holds.
    fn stats(&self) -> ArenaStats;
}

/// One value out of a closed set of variants, stored in a region.
///
/// The value is one pointer wide and is copied freely: the region owns the
/// storage, and the borrow of the builder keeps the region alive and
/// untouched for as long as a copy is around.
pub struct ArenaValue<'a, V> {
    slot: &'a Slot<V>,
}

impl<'a, V> Clone for ArenaValue<'a, V> {
    /// The same value again; nothing is allocated.
    fn clone(&self) -> (r: Self)
        ensures
            r == *self,
    {
        *self
    }
}

impl<'a, V> Copy for ArenaValue<'a, V> {

}

impl<'a, V> View for ArenaValue<'a, V> {
    type V = Tagged<V>;

    closed spec fn view(&self) -> Tagged<V> {
        self.slot@
    }
}

impl<'a, V> ArenaValue<'a, V> {
    /// The tag of the variant held.
    pub fn tag(&self) -> (t: u8)
        ensures
            t == self@.tag,
            t < MAX_VARIANTS,
    {
        self.slot.tag()
    }

    /// The variant held, for as long as the region is borrowed.
    pub fn get(&self) -> (r: &'a V)
        ensures
            *r == self@.value,
    {
        self.slot.value()
    }

    /// The address at which the variant is stored, as the region chose it.
    pub fn address(&self) -> usize {
        storage_address(self.slot.value())
    }

    /// The tag and the address in one word, or `None` where the address
    /// reaches into the bits that the tag needs.
    pub fn tagged_ptr(&self) -> (r: Option<TaggedPtr<V>>)
        ensures
            r is Some ==> r->0@.tag == self@.tag,
    {
        TaggedPtr::try_new(self.address(), self.tag())
    }
}

/// The region behind a builder.
#[verifier::reject_recursive_types(V)]
enum Region<'a, V> {
    /// A typed arena of the builder's own.
    Typed(typed_arena::Arena<Slot<V>>),
    /// A bump region of the builder's own.
    Bumpalo(bumpalo::Bump),
    /// A bump region that someone else owns.
    External(&'a bumpalo::Bump),
}

/// A builder of arena values over one region, its own or a borrowed one.
#[verifier::reject_recursive_types(V)]
pub struct RegionBuilder<'a, V> {
    allocator: Region<'a, V>,
}

impl<'a, V> RegionBuilder<'a, V> {
    /// How the region stores its values.
    pub closed spec fn strategy_spec(&self) -> Strategy {
        match self.allocator {
            Region::Typed(_) => Strategy::Typed,
            Region::Bumpalo(_) => Strategy::Bump,
            Region::External(_) => Strategy::Bump,
        }
    }

    /// A builder with a bump region of its own.
    pub fn with_bumpalo() -> (r: Self)
        ensures
            r.strategy_spec() == Strategy::Bump,
            r.owns_region(),
    {
        RegionBuilder { allocator: Region::Bumpalo(bump_fresh()) }
    }

    /// A builder over a bump region that the caller owns.
    pub fn with_external_bumpalo(region: &'a bumpalo::Bump) -> (r: Self)
        ensures
            r.strategy_spec() == Strategy::Bump,
            !r.owns_region(),
    {
        RegionBuilder { allocator: Region::External(region) }
    }

    /// A builder with a typed arena of its own.
    pub fn with_typed_arena() -> (r: Self)
        ensures
            r.strategy_spec() == Strategy::Typed,
            r.owns_region(),
    {
        RegionBuilder { allocator: Region::Typed(typed_fresh()) }
    }

    /// How the region stores its values.
    pub fn strategy(&self) -> (r: Strategy)
        ensures
            r == self.strategy_spec(),
    {
        match &self.allocator {
            Region::Typed(_) => Strategy::Typed,
            Region::Bumpalo(_) => Strategy::Bump,
            Region::External(_) => Strategy::Bump,
        }
    }

    /// Moves `value` into the region, under `tag`. The value lives until the
    /// region is reset, cleared or dropped; the borrow of the builder keeps
    /// all three away until then. A bump region may have no room left, and
    /// then the value is dropped.
    pub fn place<'s>(&'s self, value: V, tag: u8) -> (r: Result<ArenaValue<'s, V>, ArenaError>)
        requires
            tag < MAX_VARIANTS,
        ensures
            r is Ok ==> r->Ok_0@ == tagged(value, tag),
            r is Err ==> r->Err_0 == ArenaError::OutOfMemory,
            self.strategy_spec() == Strategy::Typed ==> r is Ok,
    {
        let slot = Slot::new(value, tag);
        match &self.allocator {
            Region::Typed(region) => Ok(ArenaValue { slot: typed_place(region, slot) }),
            Region::Bumpalo(region) => Self::placed(bump_place(region, slot)),
            Region::External(region) => Self::placed(bump_place(*region, slot)),
        }
    }

    /// The arena value for what a bump region answered.
    fn placed<'s>(answer: Result<&'s mut Slot<V>, bumpalo::AllocErr>) -> (r: Result<
        ArenaValue<'s, V>,
        ArenaError,
    >)
        ensures
            answer is Ok ==> r is Ok && r->Ok_0@ == answer->Ok_0@,
            answer is Err ==> r == Err::<ArenaValue<'s, V>, ArenaError>(ArenaError::OutOfMemory),
    {
        match answer {
            Ok(slot) => Ok(ArenaValue { slot }),
            Err(_) => Err(ArenaError::OutOfMemory),
        }
    }
}

impl<'a, V> ArenaBuilder<'a> for RegionBuilder<'a, V> {
    closed spec fn owns_region(&self) -> bool {
        !(self.allocator is External)
    }

    /// A builder with a region of its own; a bump region, which can say how
    /// much memory it holds.
    fn new() -> (r: Self)
        ensures
            r.strategy_spec() == Strategy::Bump,
    {
        Self::with_bumpalo()
    }

    /// Replaces the builder's own region by an empty one of the same kind.
    fn reset(&mut self) -> (r: Result<(), ArenaError>)
        ensures
            r is Err ==> r == Err::<(), ArenaError>(ArenaError::ExternalRegion),
            r is Err ==> *final(self) == *old(self),
            final(self).strategy_spec() == old(self).strategy_spec(),
    {
        match &self.allocator {
            Region::Typed(_) => {
                self.allocator = Region::Typed(typed_fresh());
                Ok(())
            },
            Region::Bumpalo(_) => {
                self.allocator = Region::Bumpalo(bump_fresh());
                Ok(())
            },
            Region::External(_) => Err(ArenaError::ExternalRegion),
        }
    }

    /// The same as `reset`: the old region goes back to the surrounding
    /// allocator whole.
    fn clear(&mut self) -> (r: Result<(), ArenaError>)
        ensures
            r is Err ==> r == Err::<(), ArenaError>(ArenaError::ExternalRegion),
            r is Err ==> *final(self) == *old(self),
            final(self).strategy_spec() == old(self).strategy_spec(),
    {
        self.reset()
    }

    /// What the region reports; a typed arena reports nothing.
    fn stats(&self) -> (r: ArenaStats)
        ensures
            self.strategy_spec() == Strategy::Typed ==> r == ArenaStats::zeroed(),
    {
        match &self.allocator {
            Region::Typed(_) => ArenaStats::default(),
            Region::Bumpalo(region) => ArenaStats::reported(
                bump_allocated_bytes(region),
                bump_chunk_capacity(region),
            ),
            Region::External(region) => ArenaStats::reported(
                bump_allocated_bytes(*region),
                bump_chunk_capacity(*region),
            ),
        }
    }
}

} // verus!
