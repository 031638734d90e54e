//! The target filter: which manifest entries take part in a resolution.

use crate::text::str_eq;
use vstd::prelude::*;

verus! {

/// An entry applies to a resolution when it is declared for every target, or
/// for exactly the requested one. Targets are compared character by character.
pub open spec fn target_applies(declared: Seq<char>, requested: Seq<char>) -> bool {
    declared == "all"@ || declared == requested
}

/// Decides whether an entry declared for `declared` applies when `requested`
/// is being resolved.
pub fn target_matches(declared: &str, requested: &str) -> (active: bool)
    ensures
        active == target_applies(declared@, requested@),
{
    str_eq(declared, "all") || str_eq(declared, requested)
}

} // verus!
