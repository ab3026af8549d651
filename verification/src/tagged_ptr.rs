//! A tagged pointer: one 64-bit word that carries a 7-bit variant tag in its
//! top bits and an address in the remaining 57 bits.

use core::cmp::Ordering;
use vstd::prelude::*;
use vstd::std_specs::cmp::PartialEqSpec;
use vstd::std_specs::cmp::PartialEqSpecImpl;
use vstd::std_specs::cmp::PartialOrdSpec;
use vstd::std_specs::cmp::PartialOrdSpecImpl;

verus! {

/// Number of low bits that hold the address; the tag sits above them.
pub const TAG_SHIFT: u64 = 57;

/// The seven top bits of a word, where the tag is stored.
pub const TAG_MASK: u64 = 0xFE00_0000_0000_0000;

/// The 57 low bits of a word, where the address is stored.
pub const PTR_MASK: u64 = 0x01FF_FFFF_FFFF_FFFF;

/// Number of distinct tags, and so the largest closed set of variants.
pub const MAX_VARIANTS: usize = 128;

/// An address can be tagged when it leaves the seven top bits of a word
/// clear, that is when it is below 2^57.
pub open spec fn taggable(address: usize) -> bool {
    address <= PTR_MASK
}

/// The word that encodes `tag` above `address`.
pub open spec fn pack(address: usize, tag: u8) -> u64 {
    (address as u64) | ((tag as u64) << TAG_SHIFT)
}

/// The tag stored in the top bits of `word`.
pub open spec fn tag_of(word: u64) -> u8 {
    ((word & TAG_MASK) >> TAG_SHIFT) as u8
}

/// The address stored in the low bits of `word`.
pub open spec fn address_of(word: u64) -> u64 {
    word & PTR_MASK
}

/// What a tagged pointer stands for: a variant tag below 128 and the address
/// of the variant's storage.
pub ghost struct Identity {
    pub tag: nat,
    pub address: nat,
}

/// The identity that `tag` and `address` name together.
pub open spec fn identity(address: usize, tag: u8) -> Identity {
    Identity { tag: tag as nat, address: address as nat }
}

/// The identity that a packed word decodes to.
pub open spec fn identity_of(word: u64) -> Identity {
    Identity { tag: tag_of(word) as nat, address: address_of(word) as nat }
}

/// A variant tag and an address packed into a single word.
///
/// The type parameter names what the address points to; the word itself is
/// plain data and can be copied freely.
#[derive(Debug)]
pub struct TaggedPtr<T> {
    word: u64,
    marker: core::marker::PhantomData<T>,
}

impl<T> Clone for TaggedPtr<T> {
    fn clone(&self) -> (r: Self)
        ensures
            r == *self,
    {
        *self
    }
}

impl<T> Copy for TaggedPtr<T> {

}

impl<T> View for TaggedPtr<T> {
    type V = Identity;

    open spec fn view(&self) -> Identity {
        identity_of(self.word())
    }
}

impl<T> TaggedPtr<T> {
    /// The address always fits the machine's pointer width.
    #[verifier::type_invariant]
    spec fn address_fits(self) -> bool {
        address_of(self.word) <= usize::MAX
    }

    /// The packed word.
    pub closed spec fn word(&self) -> u64 {
        self.word
    }

    /// Packs `tag` above `address`.
    pub fn new(address: usize, tag: u8) -> (r: Self)
        requires
            tag < MAX_VARIANTS,
            taggable(address),
        ensures
            r.word() == pack(address, tag),
            r@ == identity(address, tag),
    {
        let low: u64 = address as u64;
        let high: u64 = tag as u64;
        proof {
            lemma_pack_unpack(address, tag);
        }
        TaggedPtr { word: low | (high << TAG_SHIFT), marker: core::marker::PhantomData }
    }

    /// Packs `tag` above `address` when both are in range, and reports
    /// `None` otherwise.
    pub fn try_new(address: usize, tag: u8) -> (r: Option<Self>)
        ensures
            r is Some <==> tag < MAX_VARIANTS && taggable(address),
            r is Some ==> r->0.word() == pack(address, tag),
            r is Some ==> r->0@ == identity(address, tag),
    {
        let low: u64 = address as u64;
        proof {
            lemma_taggable_top_bits_clear(address);
        }
        if tag < 128 && low & TAG_MASK == 0 {
            Some(Self::new(address, tag))
        } else {
            None
        }
    }

    /// The variant tag.
    pub fn tag(&self) -> (t: u8)
        ensures
            t == self@.tag,
            t < MAX_VARIANTS,
    {
        let word: u64 = self.word;
        assert(((word & TAG_MASK) >> TAG_SHIFT) < 128) by (bit_vector);
        ((word & TAG_MASK) >> TAG_SHIFT) as u8
    }

    /// The address, with the tag bits cleared.
    pub fn ptr(&self) -> (a: usize)
        ensures
            a == self@.address,
            taggable(a),
    {
        proof {
            use_type_invariant(self);
        }
        let word: u64 = self.word;
        assert(word & PTR_MASK <= PTR_MASK) by (bit_vector);
        (word & PTR_MASK) as usize
    }

    /// Whether the address is the null address, whatever the tag.
    pub fn is_null(&self) -> (b: bool)
        ensures
            b <==> self@.address == 0,
    {
        self.ptr() == 0
    }

    /// The tag and the address in words, for a reader: the text of the
    /// pointer's identity, and so the same text for equal pointers.
    pub fn describe(&self) -> (r: String)
        ensures
            r@ == identity_text(self@.tag, self@.address),
    {
        format_identity(self.tag(), self.ptr())
    }
}

/// The text that stands for a tag and an address: the tag in decimal and the
/// address in hexadecimal, as `format!` writes them.
pub uninterp spec fn identity_text(tag: nat, address: nat) -> Seq<char>;

/// `format!` with `{}` for the tag and `{:#x}` for the address: the text
/// depends on the two numbers alone, and is named `identity_text` here.
#[verifier::external_body]
fn format_identity(tag: u8, address: usize) -> (r: String)
    ensures
        r@ == identity_text(tag as nat, address as nat),
{
    format!("TaggedPtr {{ tag: {}, ptr: {:#x} }}", tag, address)
}

impl<T> PartialEq for TaggedPtr<T> {
    /// Two tagged pointers are equal when they are the same word.
    fn eq(&self, other: &Self) -> (r: bool) {
        self.word == other.word
    }
}

impl<T> Eq for TaggedPtr<T> {

}

impl<T> PartialEqSpecImpl for TaggedPtr<T> {
    open spec fn obeys_eq_spec() -> bool {
        true
    }

    open spec fn eq_spec(&self, other: &Self) -> bool {
        self.word() == other.word()
    }
}

impl<T> PartialOrd for TaggedPtr<T> {
    /// Tagged pointers are ordered as their words are.
    fn partial_cmp(&self, other: &Self) -> (r: Option<Ordering>) {
        if self.word < other.word {
            Some(Ordering::Less)
        } else if self.word == other.word {
            Some(Ordering::Equal)
        } else {
            Some(Ordering::Greater)
        }
    }
}

impl<T> PartialOrdSpecImpl for TaggedPtr<T> {
    open spec fn obeys_partial_cmp_spec() -> bool {
        true
    }

    open spec fn partial_cmp_spec(&self, other: &Self) -> Option<Ordering> {
        if self.word() < other.word() {
            Some(Ordering::Less)
        } else if self.word() == other.word() {
            Some(Ordering::Equal)
        } else {
            Some(Ordering::Greater)
        }
    }
}

/// Packing a tag below 128 above a taggable address loses nothing: the tag
/// and the address both read back unchanged.
pub proof fn lemma_pack_unpack(address: usize, tag: u8)
    requires
        tag < MAX_VARIANTS,
        taggable(address),
    ensures
        tag_of(pack(address, tag)) == tag,
        address_of(pack(address, tag)) == address,
        identity_of(pack(address, tag)) == identity(address, tag),
{
    let low: u64 = address as u64;
    let high: u64 = tag as u64;
    assert(high < 128 && low <= PTR_MASK ==> ((low | (high << TAG_SHIFT)) & TAG_MASK) >> TAG_SHIFT
        == high && (low | (high << TAG_SHIFT)) & PTR_MASK == low) by (bit_vector);
}

/// An address is taggable exactly when the tag bits of its word are clear.
pub proof fn lemma_taggable_top_bits_clear(address: usize)
    ensures
        taggable(address) <==> (address as u64) & TAG_MASK == 0,
{
    let low: u64 = address as u64;
    assert(low & TAG_MASK == 0 <==> low <= PTR_MASK) by (bit_vector);
}

/// Equality of tagged pointers is identity: two words are the same exactly
/// when they carry the same tag and the same address.
pub proof fn lemma_equal_words_same_identity(a: u64, b: u64)
    ensures
        a == b <==> identity_of(a) == identity_of(b),
{
    assert((a & TAG_MASK) >> TAG_SHIFT == (b & TAG_MASK) >> TAG_SHIFT && a & PTR_MASK == b
        & PTR_MASK ==> a == b) by (bit_vector);
    assert(((a & TAG_MASK) >> TAG_SHIFT) < 128) by (bit_vector);
    assert(((b & TAG_MASK) >> TAG_SHIFT) < 128) by (bit_vector);
}

/// Words are ordered by tag first and by address second.
pub proof fn lemma_word_order_is_tag_then_address(a: u64, b: u64)
    ensures
        a < b <==> identity_of(a).tag < identity_of(b).tag || (identity_of(a).tag == identity_of(b).tag
            && identity_of(a).address < identity_of(b).address),
{
    assert(a < b <==> (a & TAG_MASK) >> TAG_SHIFT < (b & TAG_MASK) >> TAG_SHIFT || ((a & TAG_MASK)
        >> TAG_SHIFT == (b & TAG_MASK) >> TAG_SHIFT && a & PTR_MASK < b & PTR_MASK))
        by (bit_vector);
    assert(((a & TAG_MASK) >> TAG_SHIFT) < 128) by (bit_vector);
    assert(((b & TAG_MASK) >> TAG_SHIFT) < 128) by (bit_vector);
}

/// Equality of tagged pointers is pointer identity: two of them are equal
/// exactly when they carry the same tag and the same address. Each is equal
/// to itself, and two with different addresses are never equal.
pub proof fn lemma_equality_is_identity<T>(a: TaggedPtr<T>, b: TaggedPtr<T>)
    ensures
        PartialEqSpec::eq_spec(&a, &b) <==> a@ == b@,
        PartialEqSpec::eq_spec(&a, &a),
        a@.address != b@.address ==> !PartialEqSpec::eq_spec(&a, &b),
{
    lemma_equal_words_same_identity(a.word(), b.word());
}

/// Tagged pointers are ordered by tag first and by address second, and any
/// two of them are ordered one way or the other.
pub proof fn lemma_order_is_tag_then_address<T>(a: TaggedPtr<T>, b: TaggedPtr<T>)
    ensures
        PartialOrdSpec::partial_cmp_spec(&a, &b) == Some(Ordering::Less) <==> a@.tag < b@.tag
            || (a@.tag == b@.tag && a@.address < b@.address),
        PartialOrdSpec::partial_cmp_spec(&a, &b) == Some(Ordering::Equal) <==> a@ == b@,
        PartialOrdSpec::partial_cmp_spec(&a, &b) is Some,
{
    lemma_word_order_is_tag_then_address(a.word(), b.word());
    lemma_equal_words_same_identity(a.word(), b.word());
}

} // verus!
