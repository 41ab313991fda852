//! References to entities by dense index.

use vstd::prelude::*;

verus! {

/// A reference to an entity of one kind, held as a dense 32-bit index into
/// the table that owns the entities of that kind.
///
/// The largest 32-bit number is never an index: it is kept back to mark a
/// missing reference.
pub trait EntityRef: Copy {
    /// The index that the reference holds.
    spec fn spec_index(self) -> nat;

    /// The reference that holds `index`.
    ///
    /// Indices come from the sizes of the tables, never from input. One at
    /// or beyond the reserved number is a mistake in the caller.
    fn new(index: usize) -> (r: Self)
        requires
            index < u32::MAX,
        ensures
            r.spec_index() == index,
    ;

    /// The index that the reference holds.
    fn index(self) -> (i: usize)
        ensures
            i == self.spec_index(),
    ;

    /// A reference is nothing but its index.
    proof fn lemma_index_determines(self, other: Self)
        requires
            self.spec_index() == other.spec_index(),
        ensures
            self == other,
    ;
}

/// Asking a freshly made reference for its index gives the index it was
/// made from.
pub proof fn lemma_new_then_index<T: EntityRef>(index: usize, r: T, i: usize)
    requires
        index < u32::MAX,
        call_ensures(T::new, (index,), r),
        call_ensures(T::index, (r,), i),
    ensures
        i == index,
{
}

} // verus!
