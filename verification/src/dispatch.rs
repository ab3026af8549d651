//! Which methods of a capability are forwarded through a tagged value, and
//! which of a method's arguments go along.

use vstd::prelude::*;

verus! {

/// One item of a capability's definition.
#[derive(Debug, Clone, Copy, PartialEq, Eq, Structural)]
pub enum ItemDecl {
    /// A method; `excluded` says that it was marked as not to be forwarded.
    Method { excluded: bool },
    /// Anything else: an associated type, a constant.
    Other,
}

/// One parameter of a method, as declared.
#[derive(Debug, Clone, Copy, PartialEq, Eq, Structural)]
pub enum ParamDecl {
    /// The receiver.
    Receiver,
    /// A parameter bound to a plain name.
    Named,
    /// A parameter bound by any other pattern.
    Pattern,
}

/// A method is forwarded unless it was excluded.
pub open spec fn is_forwarded(item: ItemDecl) -> bool {
    item == (ItemDecl::Method { excluded: false })
}

/// A parameter is passed on when it comes after the first, which is the
/// receiver, and is bound to a plain name.
pub open spec fn is_passed_on(params: Seq<ParamDecl>, position: int) -> bool {
    1 <= position < params.len() && params[position] == ParamDecl::Named
}

/// `table` lists, in rising order and each once, exactly the positions of
/// the forwarded methods among `items`.
pub open spec fn is_forwarding_table(items: Seq<ItemDecl>, table: Seq<usize>) -> bool {
    &&& forall|k: int|
        0 <= k < table.len() ==> (#[trigger] table[k]) < items.len() && is_forwarded(
            items[table[k] as int],
        )
    &&& forall|k: int, l: int| 0 <= k < l < table.len() ==> table[k] < table[l]
    &&& forall|i: int|
        0 <= i < items.len() && is_forwarded(#[trigger] items[i]) ==> table.contains(i as usize)
}

/// `chosen` lists, in rising order and each once, exactly the positions of
/// the parameters among `params` that are passed on.
pub open spec fn is_argument_list(params: Seq<ParamDecl>, chosen: Seq<usize>) -> bool {
    &&& forall|k: int|
        0 <= k < chosen.len() ==> (#[trigger] chosen[k]) < params.len() && is_passed_on(
            params,
            chosen[k] as int,
        )
    &&& forall|k: int, l: int| 0 <= k < l < chosen.len() ==> chosen[k] < chosen[l]
    &&& forall|i: int| #[trigger] is_passed_on(params, i) ==> chosen.contains(i as usize)
}

/// The forwarding table of a capability: the positions of the methods that
/// are reached through a tagged value, in declaration order. An excluded
/// method is never among them.
pub fn dispatched_methods(items: &Vec<ItemDecl>) -> (r: Vec<usize>)
    ensures
        is_forwarding_table(items@, r@),
{
    let mut table: Vec<usize> = Vec::new();
    let mut index: usize = 0;
    while index < items.len()
        invariant
            index <= items.len(),
            forall|k: int|
                0 <= k < table.len() ==> (#[trigger] table[k]) < index && is_forwarded(
                    items[table[k] as int],
                ),
            forall|k: int, l: int| 0 <= k < l < table.len() ==> table[k] < table[l],
            forall|i: int|
                0 <= i < index && is_forwarded(#[trigger] items[i]) ==> table@.contains(i as usize),
        decreases items.len() - index,
    {
        let wanted = match items[index] {
            ItemDecl::Method { excluded } => !excluded,
            ItemDecl::Other => false,
        };
        let ghost before = table@;
        if wanted {
            table.push(index);
        }
        proof {
            assert forall|i: int| 0 <= i < index + 1 && is_forwarded(#[trigger] items[i]) implies table@.contains(
                i as usize,
            ) by {
                if i < index {
                    let k = choose|k: int| 0 <= k < before.len() && before[k] == i as usize;
                    assert(table@[k] == i as usize);
                } else {
                    assert(table@[before.len() as int] == i as usize);
                }
            }
        }
        index += 1;
    }
    table
}

/// The positions of the parameters that a forwarding method passes on to the
/// concrete type, in declaration order.
pub fn forwarded_arguments(params: &Vec<ParamDecl>) -> (r: Vec<usize>)
    ensures
        is_argument_list(params@, r@),
{
    let mut chosen: Vec<usize> = Vec::new();
    let mut index: usize = 0;
    while index < params.len()
        invariant
            index <= params.len(),
            forall|k: int|
                0 <= k < chosen.len() ==> (#[trigger] chosen[k]) < index && is_passed_on(
                    params@,
                    chosen[k] as int,
                ),
            forall|k: int, l: int| 0 <= k < l < chosen.len() ==> chosen[k] < chosen[l],
            forall|i: int|
                i < index && #[trigger] is_passed_on(params@, i) ==> chosen@.contains(i as usize),
        decreases params.len() - index,
    {
        let wanted = index >= 1 && match params[index] {
            ParamDecl::Named => true,
            _ => false,
        };
        let ghost before = chosen@;
        if wanted {
            chosen.push(index);
        }
        proof {
            assert forall|i: int| i < index + 1 && #[trigger] is_passed_on(params@, i) implies chosen@.contains(
                i as usize,
            ) by {
                if i < index {
                    let k = choose|k: int| 0 <= k < before.len() && before[k] == i as usize;
                    assert(chosen@[k] == i as usize);
                } else {
                    assert(chosen@[before.len() as int] == i as usize);
                }
            }
        }
        index += 1;
    }
    chosen
}

} // verus!
