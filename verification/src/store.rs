//! The two handle types over the paired slot storage.
//!
//! `OwnedMapAccess` is the exclusive, non-duplicable owner of the two-slot
//! storage: it builds the pair once, hands out slot references, and its
//! teardown is the single point at which the storage is released.
//! `MapAccess` is a freely copyable, non-owning accessor for readers: its
//! slot access borrows the owning handle, so a read can only happen while
//! the owner — and with it the storage — is still alive, the safe rendering
//! of the pattern's "owner outlives every accessor" contract.
//!
//! The slot value type is opaque to this substrate: the handles are generic
//! over it and never look inside.

use vstd::prelude::*;

use crate::index::MapIndex;

verus! {

/// Exclusive owner of the paired slot storage.
///
/// There is exactly one of these per allocation: it is created once with
/// the two initial slot values and consumed once by [`Self::into_slots`],
/// so the storage is built and released at exactly one point each.
pub struct OwnedMapAccess<T> {
    first: T,
    second: T,
    id: Ghost<int>,
}

/// Non-owning, freely copyable accessor to the paired slot storage.
///
/// A reader holds one of these instead of the owning handle; any number may
/// exist at once. An accessor carries the ghost identity of the owning
/// handle it was derived from, so its reads are tied to that handle's
/// storage and to no other; reading borrows the owning handle, which ties
/// every read to the owner's lifetime as well. Duplication (the type is
/// `Copy`) keeps the identity.
#[derive(Clone, Copy)]
pub struct MapAccess {
    id: Ghost<int>,
}

impl<T> OwnedMapAccess<T> {
    /// The value currently held by the chosen slot, as a mathematical
    /// function of the handle's state.
    pub closed spec fn spec_slot(self, map_index: MapIndex) -> T {
        match map_index {
            MapIndex::First => self.first,
            MapIndex::Second => self.second,
        }
    }

    /// The identity of this handle's storage: every accessor derived from
    /// the handle carries the same identity, and no other identity is
    /// provably equal to it.
    pub closed spec fn id(self) -> int {
        self.id@
    }

    /// Builds the paired storage from two already-constructed slot values,
    /// placing `first` in the `First` slot and `second` in the `Second`
    /// slot. This is the single point at which the storage comes to exist.
    pub fn new(first: T, second: T) -> (r: Self)
        ensures
            r.spec_slot(MapIndex::First) == first,
            r.spec_slot(MapIndex::Second) == second,
    {
        OwnedMapAccess { first, second, id: Ghost(arbitrary()) }
    }

    /// Read access to the chosen slot. Infallible: the index type is
    /// exhaustively enumerated, so no invalid index is representable.
    pub fn get(&self, map_index: MapIndex) -> (r: &T)
        ensures
            *r == self.spec_slot(map_index),
    {
        match map_index {
            MapIndex::First => &self.first,
            MapIndex::Second => &self.second,
        }
    }

    /// Write access to the chosen slot, for the single writer. Whatever the
    /// caller does through the returned reference changes only the chosen
    /// slot: the sibling slot is disjoint storage and keeps its value.
    pub fn get_mut(&mut self, map_index: MapIndex) -> (r: &mut T)
        ensures
            *r == old(self).spec_slot(map_index),
            *final(r) == final(self).spec_slot(map_index),
            final(self).spec_slot(map_index.spec_other())
                == old(self).spec_slot(map_index.spec_other()),
            final(self).id() == old(self).id(),
    {
        match map_index {
            MapIndex::First => &mut self.first,
            MapIndex::Second => &mut self.second,
        }
    }

    /// Produces a new, independent accessor to this handle's storage: the
    /// accessor carries this owner's identity, so its reads go to the same
    /// storage the owner sees. Callable any number of times; ownership is
    /// unaffected.
    pub fn share(&self) -> (r: MapAccess)
        ensures
            r.id() == self.id(),
    {
        MapAccess::new(Ghost(self.id()))
    }

    /// Teardown: consumes the owning handle and releases the paired
    /// storage, handing the two slot values back to the caller. Taking the
    /// handle by value makes this the single, exactly-once release point —
    /// no second teardown can be expressed.
    pub fn into_slots(self) -> (r: (T, T))
        ensures
            r.0 == self.spec_slot(MapIndex::First),
            r.1 == self.spec_slot(MapIndex::Second),
    {
        let OwnedMapAccess { first, second, id: _ } = self;
        (first, second)
    }
}

impl MapAccess {
    /// The identity of the storage this accessor was derived from.
    pub closed spec fn id(self) -> int {
        self.id@
    }

    /// An accessor carries no storage of its own; it is a capability to
    /// read through the live owning handle whose identity it records.
    fn new(id: Ghost<int>) -> (r: Self)
        ensures
            r.id() == id@,
    {
        MapAccess { id }
    }

    /// Read access to the chosen slot of the owner's storage: the same
    /// storage the owner sees, so a mutation made through the owning handle
    /// is observable here. The accessor must originate from this owner —
    /// its identity matches — and the borrow of `owner` is the alive-owner
    /// precondition made structural: no read can outlive the owning handle.
    pub fn get<'a, T>(&self, owner: &'a OwnedMapAccess<T>, map_index: MapIndex) -> (r: &'a T)
        requires
            self.id() == owner.id(),
        ensures
            *r == owner.spec_slot(map_index),
    {
        owner.get(map_index)
    }
}

} // verus!
