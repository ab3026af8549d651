//! The names under which a set of variants is reached: constructors, and the
//! types and macros that go with the set.

use vstd::prelude::*;
use vstd::string::StringExecFns;

verus! {

/// The snake-case form of a name, as `heck` computes it.
pub uninterp spec fn snake_case(name: Seq<char>) -> Seq<char>;

/// `heck::ToSnakeCase::to_snake_case` on a `str`: the result depends on the
/// characters of `name` alone, and is named `snake_case` here.
#[verifier::external_body]
fn to_snake_case(name: &str) -> (r: String)
    ensures
        r@ == snake_case(name@),
{
    heck::ToSnakeCase::to_snake_case(name)
}

/// The name of the constructor of a variant: the variant's name in snake
/// case.
pub fn constructor_name(variant: &str) -> (r: String)
    ensures
        r@ == snake_case(variant@),
{
    to_snake_case(variant)
}

/// The name of the dispatch macro that goes with a capability whose name in
/// snake case is `capability`.
pub fn dispatch_macro_for(capability: &str) -> (r: String)
    ensures
        r@ == "__impl_"@ + capability@ + "_dispatch"@,
{
    String::from_str("__impl_").concat(capability).concat("_dispatch")
}

/// The name of the dispatch macro of a capability: `__impl_`, the
/// capability's name in snake case, and `_dispatch`.
pub fn dispatch_macro_name(capability: &str) -> (r: String)
    ensures
        r@ == "__impl_"@ + snake_case(capability@) + "_dispatch"@,
{
    let snake = to_snake_case(capability);
    dispatch_macro_for(snake.as_str())
}

/// The name of the enumeration that tells a set's variants apart.
pub fn type_enum_name(set: &str) -> (r: String)
    ensures
        r@ == set@ + "Type"@,
{
    String::from_str(set).concat("Type")
}

/// The name of the builder of a set's arena values.
pub fn builder_name(set: &str) -> (r: String)
    ensures
        r@ == set@ + "ArenaBuilder"@,
{
    String::from_str(set).concat("ArenaBuilder")
}

/// The name of the sum type that holds one variant of a set.
pub fn kind_enum_name(set: &str) -> (r: String)
    ensures
        r@ == set@ + "Kind"@,
{
    String::from_str(set).concat("Kind")
}

} // verus!
