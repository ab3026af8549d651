//! Pointer-sized values over a closed set of variant types.
//!
//! A value of such a set is one machine word wide, whichever variant it
//! holds. What tells the variants apart is a tag below 128; together with
//! the address of the variant it is the value's identity, by which values
//! are compared, ordered and printed.
//!
//! - [`tagged_ptr`] packs a tag and an address into one word and proves that
//!   both read back unchanged.
//! - [`owned`] holds values that own a heap allocation each; [`arena`] holds
//!   values that live together in a region and go away together.
//! - [`allocator`] is where the storage comes from.
//! - [`registry`], [`names`], [`dispatch`] and [`behaviors`] say what a
//!   declared set of variants and its capabilities come to: tags, names,
//!   forwarded methods and the behaviours that every value gets.

pub mod allocator;
pub mod arena;
pub mod behaviors;
pub mod dispatch;
pub mod names;
pub mod owned;
pub mod registry;
pub mod slot;
pub mod tagged_ptr;

pub use allocator::BoxAllocator;
pub use allocator::TaggedAllocator;
pub use arena::ArenaBuilder;
pub use arena::ArenaError;
pub use arena::ArenaStats;
pub use arena::ArenaValue;
pub use arena::RegionBuilder;
pub use arena::Strategy;
pub use owned::OwnedValue;
pub use tagged_ptr::TaggedPtr;
