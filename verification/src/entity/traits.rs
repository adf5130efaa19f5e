//! What every stored record can do.

use vstd::prelude::*;

verus! {

/// A record that reports a stable 128-bit identifier.
///
/// The identifier is part of the record's view, and cloning a record gives a
/// record with the same view: a store may hand out clones in place of what it
/// holds.
pub trait Identifiable: View + Clone + Sized {
    /// The identifier reported by a record whose view is `v`.
    spec fn id_of(v: Self::V) -> u128;

    fn id(&self) -> (r: u128)
        ensures
            r == Self::id_of(self@),
    ;

    /// A clone has the view of the value it was made from.
    proof fn clone_keeps_view(a: &Self, b: &Self)
        requires
            cloned(*a, *b),
        ensures
            a@ == b@,
    ;
}

} // verus!
