//! The closed set of variants behind one kind of tagged value: which
//! concrete type each variant holds and which tag it gets.

use vstd::prelude::*;
use crate::tagged_ptr::MAX_VARIANTS;

verus! {

/// How a variant was declared.
pub enum VariantShape {
    /// By its name alone: the variant holds the type of the same name.
    Unit,
    /// With exactly one unnamed field, of the type named here.
    Single(String),
    /// In any other way, which no tagged value can hold.
    Other,
}

/// One variant as declared, in declaration order.
pub struct VariantDecl {
    pub name: String,
    pub shape: VariantShape,
}

/// One variant of a closed set: its name, the concrete type it holds and the
/// tag that stands for it.
pub struct Variant {
    pub name: String,
    pub concrete: String,
    pub tag: u8,
}

/// Why a set of variants was turned down.
#[derive(Debug, Clone, Copy, PartialEq, Eq, Structural)]
pub enum RegistryError {
    /// More variants were declared than there are tags.
    TooManyVariants { count: usize },
    /// The variant at `index` holds no single concrete type.
    UnsupportedShape { index: usize },
}

/// The two kinds of tagged value.
#[derive(Debug, Clone, Copy, PartialEq, Eq, Structural)]
pub enum Mode {
    /// Values that own their allocation.
    Owned,
    /// Values that live in a region, for as long as its lifetime says.
    Arena,
}

/// A set declared with a lifetime parameter holds arena values; a set
/// declared without one holds owned values.
pub fn mode_for(lifetime_params: usize) -> (r: Mode)
    ensures
        r == (if lifetime_params == 0 {
            Mode::Owned
        } else {
            Mode::Arena
        }),
{
    if lifetime_params == 0 {
        Mode::Owned
    } else {
        Mode::Arena
    }
}

/// The concrete type that a declared variant holds, if it holds one.
pub open spec fn concrete_of(decl: VariantDecl) -> Option<Seq<char>> {
    match decl.shape {
        VariantShape::Unit => Some(decl.name@),
        VariantShape::Single(concrete) => Some(concrete@),
        VariantShape::Other => None,
    }
}

/// Every declaration before `end` holds a concrete type.
pub open spec fn all_supported(decls: Seq<VariantDecl>, end: int) -> bool {
    forall|i: int| 0 <= i < end && i < decls.len() ==> (#[trigger] concrete_of(decls[i])) is Some
}

/// `variants` is `decls` registered: the same variants in the same order,
/// each with its concrete type and with its position as its tag.
pub open spec fn registered(decls: Seq<VariantDecl>, variants: Seq<Variant>) -> bool {
    &&& variants.len() == decls.len()
    &&& forall|i: int|
        0 <= i < decls.len() ==> {
            &&& (#[trigger] variants[i]).name@ == decls[i].name@
            &&& Some(variants[i].concrete@) == concrete_of(decls[i])
            &&& variants[i].tag == i
        }
}

/// The concrete type that `decl` holds.
pub fn concrete_type(decl: &VariantDecl) -> (r: Option<String>)
    ensures
        r is Some <==> concrete_of(*decl) is Some,
        r is Some ==> r->0@ == concrete_of(*decl)->0,
{
    match &decl.shape {
        VariantShape::Unit => Some(decl.name.clone()),
        VariantShape::Single(concrete) => Some(concrete.clone()),
        VariantShape::Other => None,
    }
}

/// A closed set of variants in declaration order: at most 128 of them, each
/// with its position as its tag.
pub struct Registry {
    variants: Vec<Variant>,
}

impl View for Registry {
    type V = Seq<Variant>;

    closed spec fn view(&self) -> Seq<Variant> {
        self.variants@
    }
}

impl Registry {
    #[verifier::type_invariant]
    spec fn tags_in_order(self) -> bool {
        &&& self.variants.len() <= MAX_VARIANTS
        &&& forall|i: int| 0 <= i < self.variants.len() ==> (#[trigger] self.variants[i]).tag == i
    }

    /// Registers the declared variants, giving each its position as its tag.
    ///
    /// A set of more than 128 variants is turned down whole, and so is a set
    /// with a variant that holds no single concrete type; the error names
    /// the first such variant.
    pub fn register(decls: &Vec<VariantDecl>) -> (r: Result<Registry, RegistryError>)
        ensures
            decls.len() > MAX_VARIANTS ==> r == Err::<Registry, RegistryError>(
                RegistryError::TooManyVariants { count: decls.len() },
            ),
            decls.len() <= MAX_VARIANTS && all_supported(decls@, decls.len() as int) ==> r is Ok
                && registered(decls@, r->Ok_0@),
            decls.len() <= MAX_VARIANTS && !all_supported(decls@, decls.len() as int) ==> r is Err
                && r->Err_0 is UnsupportedShape && r->Err_0->index < decls.len() && concrete_of(
                decls[r->Err_0->index as int],
            ) is None && all_supported(decls@, r->Err_0->index as int),
    {
        if decls.len() > MAX_VARIANTS {
            return Err(RegistryError::TooManyVariants { count: decls.len() });
        }
        let mut variants: Vec<Variant> = Vec::new();
        let mut index: usize = 0;
        while index < decls.len()
            invariant
                index <= decls.len() <= MAX_VARIANTS,
                all_supported(decls@, index as int),
                variants.len() == index,
                forall|i: int|
                    0 <= i < index ==> {
                        &&& (#[trigger] variants[i]).name@ == decls[i].name@
                        &&& Some(variants[i].concrete@) == concrete_of(decls[i])
                        &&& variants[i].tag == i
                    },
            decreases decls.len() - index,
        {
            let decl = &decls[index];
            match concrete_type(decl) {
                Some(concrete) => {
                    variants.push(Variant { name: decl.name.clone(), concrete, tag: index as u8 });
                },
                None => {
                    return Err(RegistryError::UnsupportedShape { index });
                },
            }
            index += 1;
        }
        Ok(Registry { variants })
    }

    /// The number of variants in the set.
    pub fn len(&self) -> (r: usize)
        ensures
            r == self@.len(),
            r <= MAX_VARIANTS,
    {
        proof {
            use_type_invariant(self);
        }
        self.variants.len()
    }

    /// The variant that `tag` stands for, if the set has one.
    pub fn variant(&self, tag: u8) -> (r: Option<&Variant>)
        ensures
            r is Some <==> tag < self@.len(),
            r is Some ==> *r->0 == self@[tag as int] && r->0.tag == tag,
    {
        proof {
            use_type_invariant(self);
        }
        let index: usize = tag as usize;
        if index < self.variants.len() {
            Some(&self.variants[index])
        } else {
            None
        }
    }
}

} // verus!
