//! Placing values in storage: on the heap, one allocation per value, or in a
//! bump region that frees everything it holds at once.

use vstd::prelude::*;

verus! {

/// `bumpalo::Bump`: a bump region. What it holds is its own business.
#[verifier::external_type_specification]
#[verifier::external_body]
pub struct ExBump<const MIN_ALIGN: usize>(bumpalo::Bump<MIN_ALIGN>);

/// `typed_arena::Arena`: an arena of values of one type. What it holds is
/// its own business.
#[verifier::external_type_specification]
#[verifier::external_body]
#[verifier::reject_recursive_types(T)]
pub struct ExTypedArena<T>(typed_arena::Arena<T>);

/// `bumpalo::AllocErr`: a bump region's word for having no room.
#[verifier::external_type_specification]
#[verifier::external_body]
pub struct ExAllocErr(bumpalo::AllocErr);

/// A source of storage for variant values.
pub trait TaggedAllocator {
    /// Moves `value` into storage that lives as long as the allocator is
    /// borrowed and hands back the reference to it, or `None` where the
    /// allocator has no room left.
    fn place<T>(&self, value: T) -> (r: Option<&mut T>)
        ensures
            r is Some ==> *r->0 == value,
    ;
}

/// The heap strategy: every value gets an allocation of its own, which is
/// never taken back.
pub struct BoxAllocator;

impl TaggedAllocator for BoxAllocator {
    /// The heap always has room, as far as this library can tell.
    fn place<T>(&self, value: T) -> (r: Option<&mut T>)
        ensures
            r is Some,
    {
        Some(leak_box(Box::new(value)))
    }
}

impl TaggedAllocator for bumpalo::Bump {
    fn place<T>(&self, value: T) -> (r: Option<&mut T>) {
        match bump_place(self, value) {
            Ok(placed) => Some(placed),
            Err(_) => None,
        }
    }
}

/// `Box::leak`: gives up ownership of a box and returns the reference to what
/// it holds, which stays where it is.
#[verifier::external_body]
fn leak_box<'a, T>(boxed: Box<T>) -> (r: &'a mut T)
    ensures
        *r == *boxed,
{
    Box::leak(boxed)
}

/// `bumpalo::Bump::try_alloc`: moves `value` into the region and returns the
/// exclusive reference to it, or the region's error where it could not
/// reserve the space. Whether there is space is the region's own business.
#[verifier::external_body]
pub(crate) fn bump_place<'a, T>(region: &'a bumpalo::Bump, value: T) -> (r: Result<
    &'a mut T,
    bumpalo::AllocErr,
>)
    ensures
        r is Ok ==> *r->Ok_0 == value,
{
    bumpalo::Bump::try_alloc(region, value)
}

/// `typed_arena::Arena::alloc`: moves `value` into the arena and returns the
/// reference to it. Like `Box::new`, the call does not return when the
/// process is out of memory.
#[verifier::external_body]
pub(crate) fn typed_place<'a, T>(region: &'a typed_arena::Arena<T>, value: T) -> (r: &'a mut T)
    ensures
        *r == value,
{
    typed_arena::Arena::alloc(region, value)
}

/// `bumpalo::Bump::new`: a region that holds nothing yet.
#[verifier::external_body]
pub(crate) fn bump_fresh() -> bumpalo::Bump {
    bumpalo::Bump::new()
}

/// `typed_arena::Arena::new`: an arena that holds nothing yet.
#[verifier::external_body]
pub(crate) fn typed_fresh<T>() -> typed_arena::Arena<T> {
    typed_arena::Arena::new()
}

/// `bumpalo::Bump::allocated_bytes`: the bytes of all chunks that the region
/// holds at this moment. The number is the allocator's own business and
/// nothing is claimed of it.
#[verifier::external_body]
pub(crate) fn bump_allocated_bytes(region: &bumpalo::Bump) -> usize {
    region.allocated_bytes()
}

/// `bumpalo::Bump::chunk_capacity`: the bytes still free in the region's
/// current chunk. Nothing is claimed of the number.
#[verifier::external_body]
pub(crate) fn bump_chunk_capacity(region: &bumpalo::Bump) -> usize {
    region.chunk_capacity()
}

/// `core::ptr::from_ref`: the address at which the target of a reference is
/// stored. Where the allocator put it is not for this library to say, so
/// nothing is claimed of the number.
#[verifier::external_body]
pub(crate) fn storage_address<T>(target: &T) -> usize {
    core::ptr::from_ref(target) as usize
}

} // verus!
