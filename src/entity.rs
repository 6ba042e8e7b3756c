use vstd::prelude::*;

verus! {

/// An opaque entity identifier: a 32-bit index with no generation counter.
///
/// Two entities are equal exactly when their indices are equal.
#[derive(Clone, Copy, Debug, PartialEq, Eq, Structural, PartialOrd, Ord, Hash)]
pub struct Entity(pub u32);

impl Entity {
    /// The index of this entity.
    pub open spec fn id(self) -> u32 {
        self.0
    }

    /// Makes the entity with index `id`.
    pub fn new(id: u32) -> (r: Entity)
        ensures
            r.id() == id,
    {
        Entity(id)
    }

    /// Returns the index of this entity.
    pub fn index(&self) -> (r: u32)
        ensures
            r == self.id(),
    {
        self.0
    }
}

} // verus!
