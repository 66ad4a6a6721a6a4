//! Clif Core: the library behind encoding, storage and pipeline orchestration.
//!
//! At present the library reports the version it declares for itself.

use vstd::prelude::*;

verus! {

/// The version this package declares for itself. `version` hands out this
/// constant, so what it reports cannot drift away from what is declared.
pub const PACKAGE_VERSION: &'static str = "0.1.0";

/// Returns the version this package declares for itself.
///
/// The answer is the declared version, character for character, and it is never
/// empty. The query takes no input, has no side effect and cannot fail.
pub fn version() -> (v: &'static str)
    ensures
        v@ == PACKAGE_VERSION@,
        v@.len() > 0,
{
    proof {
        // Non-emptiness is read off the declared text. Should the declaration
        // change, this literal changes with it, or the proof no longer holds.
        reveal_strlit("0.1.0");
    }
    PACKAGE_VERSION
}

/// Asking twice gives the same text: whatever two calls of `version` return,
/// the two answers are equal.
pub proof fn lemma_version_is_stable(first: &str, second: &str)
    requires
        first@ == PACKAGE_VERSION@,
        second@ == PACKAGE_VERSION@,
    ensures
        first@ == second@,
{
}

} // verus!
