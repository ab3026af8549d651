//! Which behaviours a kind of tagged value gets without asking: printing,
//! equality and order, all three by tag and address.

use vstd::prelude::*;

verus! {

/// A request to leave a behaviour out.
#[derive(Debug, Clone, Copy, PartialEq, Eq, Structural)]
pub enum Flag {
    /// No printing by tag and address.
    NoDebug,
    /// No equality and no order.
    NoCmp,
    /// No order.
    NoOrd,
    /// None of the three.
    NoTraits,
}

/// The behaviours that a kind of tagged value gets.
#[derive(Debug, Clone, Copy, PartialEq, Eq, Structural)]
pub struct Behaviors {
    /// Printing by tag and address.
    pub debug: bool,
    /// Equality of tag and address.
    pub equality: bool,
    /// Order by tag first and address second.
    pub ordering: bool,
}

/// The behaviours that are left when `flags` are taken out of all three.
/// An order needs an equality, so leaving equality out leaves order out.
pub open spec fn behaviors_of(flags: Seq<Flag>) -> Behaviors {
    Behaviors {
        debug: !flags.contains(Flag::NoDebug) && !flags.contains(Flag::NoTraits),
        equality: !flags.contains(Flag::NoCmp) && !flags.contains(Flag::NoTraits),
        ordering: !flags.contains(Flag::NoOrd) && !flags.contains(Flag::NoCmp) && !flags.contains(
            Flag::NoTraits,
        ),
    }
}

/// The flag that `word` spells, if it spells one.
pub open spec fn flag_of(word: Seq<char>) -> Option<Flag> {
    if word == "no_debug"@ {
        Some(Flag::NoDebug)
    } else if word == "no_cmp"@ {
        Some(Flag::NoCmp)
    } else if word == "no_ord"@ {
        Some(Flag::NoOrd)
    } else if word == "no_traits"@ {
        Some(Flag::NoTraits)
    } else {
        None
    }
}

/// `str`'s `==`: two strings are equal exactly when they hold the same
/// characters.
#[verifier::external_body]
fn same_text(left: &str, right: &str) -> (r: bool)
    ensures
        r == (left@ == right@),
{
    left == right
}

/// Reads one argument of a set's declaration: a flag, or else the name of a
/// capability, for which the answer is `None`.
pub fn parse_flag(word: &str) -> (r: Option<Flag>)
    ensures
        r == flag_of(word@),
{
    if same_text(word, "no_debug") {
        Some(Flag::NoDebug)
    } else if same_text(word, "no_cmp") {
        Some(Flag::NoCmp)
    } else if same_text(word, "no_ord") {
        Some(Flag::NoOrd)
    } else if same_text(word, "no_traits") {
        Some(Flag::NoTraits)
    } else {
        None
    }
}

/// The behaviours that a kind of tagged value gets under `flags`.
pub fn derived_behaviors(flags: &Vec<Flag>) -> (r: Behaviors)
    ensures
        r == behaviors_of(flags@),
{
    let mut behaviors = Behaviors { debug: true, equality: true, ordering: true };
    let mut index: usize = 0;
    while index < flags.len()
        invariant
            index <= flags.len(),
            behaviors == behaviors_of(flags@.take(index as int)),
        decreases flags.len() - index,
    {
        let ghost seen = flags@.take(index as int);
        let ghost next = flags@.take(index + 1);
        assert(next == seen.push(flags@[index as int]));
        assert forall|flag: Flag| next.contains(flag) <==> seen.contains(flag) || flag == flags@[index as int] by {
            if seen.contains(flag) {
                let k = choose|k: int| 0 <= k < seen.len() && seen[k] == flag;
                assert(next[k] == flag);
            }
            if flag == flags@[index as int] {
                assert(next[index as int] == flag);
            }
        }
        match flags[index] {
            Flag::NoDebug => {
                behaviors.debug = false;
            },
            Flag::NoCmp => {
                behaviors.equality = false;
                behaviors.ordering = false;
            },
            Flag::NoOrd => {
                behaviors.ordering = false;
            },
            Flag::NoTraits => {
                behaviors.debug = false;
                behaviors.equality = false;
                behaviors.ordering = false;
            },
        }
        index += 1;
    }
    assert(flags@.take(index as int) == flags@);
    behaviors
}

} // verus!
