//! A minimal capability contract: a trait that asks a conforming type for an
//! associated type, a constant, and an operation, together with the unit
//! type's deliberately unfinished conformance, and the greeting the program
//! prints.

use vstd::pervasive::unreached;
use vstd::prelude::*;

verus! {

/// The capability contract. A conforming type fills three slots: an
/// associated type `T` (unconstrained), a constant `c` of `u32`, and a
/// zero-argument operation `test` returning `u32`. The contract fixes only
/// the signatures; it promises nothing about the values.
///
/// A conformer that has not yet built `c` and `test` declares so through
/// `implemented`, which makes both members uncallable from verified code:
/// their executable bodies are then fatal stubs that only unverified callers
/// could reach.
pub trait Capability {
    /// The associated type slot; the contract puts no bound on it, so a
    /// conformer may fill it with any type, including itself.
    type T;

    /// Whether this conformer has supplied real definitions for `c` and
    /// `test`. A conformer that leaves them as placeholders makes this
    /// false, and no verified caller can then reach either member.
    spec fn implemented() -> bool;

    /// The contract's constant slot, as a getter: a compile-time `u32`
    /// value each conformer fixes.
    fn c() -> (r: u32)
        requires
            Self::implemented(),
    ;

    /// The contract's required operation: zero arguments, a `u32` result,
    /// computed however the conformer chooses.
    fn test() -> (r: u32)
        requires
            Self::implemented(),
    ;
}

impl Capability for () {
    /// The unit conformer fills the type slot with itself.
    type T = ();

    /// Both value members are intentional stubs: feature declared, not yet
    /// built.
    open spec fn implemented() -> bool {
        false
    }

    fn c() -> u32 {
        unreached()
    }

    fn test() -> u32 {
        unreached()
    }
}

/// The unit type conforms to `Capability`, yet leaves both value members
/// unimplemented: no verified caller can evaluate its constant or invoke its
/// operation, and the executable stubs abort the process if unverified code
/// ever reaches them.
pub proof fn lemma_unit_members_unreachable()
    ensures
        !<() as Capability>::implemented(),
{
}

/// A generic consumer of the contract: for a conformer that has implemented
/// its members, runs the operation. The contract fixes only the operation's
/// signature, so nothing more is promised of the result.
pub fn run_test<X: Capability>() -> u32
    requires
        X::implemented(),
{
    X::test()
}

/// The one line the program writes to standard output (the trailing newline
/// is added when it is printed).
pub fn greeting() -> (r: &'static str)
    ensures
        r@ == "Hello, World"@,
{
    "Hello, World"
}

} // verus!
