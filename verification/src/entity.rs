//! Generational identifiers of the nodes in a tree.

use vstd::prelude::*;

verus! {

/// Number of bits of an identifier that hold the slot index.
pub const ENTITY_INDEX_BITS: u32 = 24;

/// Mask that selects the slot index of an identifier.
pub const ENTITY_INDEX_MASK: u32 = 0x00ff_ffff;

/// Largest generation an identifier can carry.
pub const ENTITY_GENERATION_MASK: u32 = 0xff;

/// A handle to a node: a slot index in the low 24 bits and a generation in
/// the high 8 bits.
///
/// Two handles are equal when both parts match. The all-ones value is the
/// null handle, and index 0 with generation 0 is the root of every tree.
#[derive(Clone, Copy, Debug, PartialEq, Eq, Hash, Structural)]
pub struct Entity(pub u32);

impl Entity {
    /// The slot index as a mathematical integer.
    pub open spec fn spec_index(self) -> int {
        (self.0 & ENTITY_INDEX_MASK) as int
    }

    /// The generation as a mathematical integer.
    pub open spec fn spec_generation(self) -> int {
        (self.0 >> ENTITY_INDEX_BITS) as int
    }

    /// Whether this is the null handle.
    pub open spec fn spec_is_null(self) -> bool {
        self.0 == u32::MAX
    }

    /// The null handle.
    pub open spec fn spec_null() -> Entity {
        Entity(u32::MAX)
    }

    /// The root handle.
    pub open spec fn spec_root() -> Entity {
        Entity(0)
    }

    /// Every index fits in 24 bits, and the root has index 0.
    pub broadcast proof fn lemma_index_bound(self)
        ensures
            0 <= #[trigger] self.spec_index() <= ENTITY_INDEX_MASK,
    {
        let v = self.0;
        assert(v & 0x00ff_ffff <= 0x00ff_ffff) by (bit_vector);
    }

    /// Packs an index and a generation into a handle.
    pub fn new(index: u32, generation: u32) -> (e: Entity)
        requires
            index < ENTITY_INDEX_MASK,
            generation < ENTITY_GENERATION_MASK,
        ensures
            e.spec_index() == index,
            e.spec_generation() == generation,
            !e.spec_is_null(),
    {
        assert((index | (generation << 24)) & 0x00ff_ffff == index
            && (index | (generation << 24)) >> 24 == generation
            && (index | (generation << 24)) != 0xffff_ffffu32) by (bit_vector)
            requires
                index < 0x00ff_ffffu32,
                generation < 0xffu32,
        ;
        Entity(index | (generation << ENTITY_INDEX_BITS))
    }

    /// The null handle, which names no node.
    pub fn null() -> (e: Entity)
        ensures
            e == Self::spec_null(),
            e.spec_is_null(),
    {
        Entity(u32::MAX)
    }

    /// The handle of the root node.
    pub fn root() -> (e: Entity)
        ensures
            e == Self::spec_root(),
            e.spec_index() == 0,
            !e.spec_is_null(),
    {
        assert(0u32 & 0x00ff_ffff == 0) by (bit_vector);
        Entity(0)
    }

    /// Whether this is the null handle.
    pub fn is_null(&self) -> (b: bool)
        ensures
            b == self.spec_is_null(),
    {
        self.0 == u32::MAX
    }

    /// The slot index, used to address the arrays of a tree.
    pub fn index(&self) -> (i: usize)
        ensures
            i == self.spec_index(),
            i <= ENTITY_INDEX_MASK,
    {
        let v: u32 = self.0;
        assert(v & 0x00ff_ffff <= 0x00ff_ffff) by (bit_vector);
        (self.0 & ENTITY_INDEX_MASK) as usize
    }

    /// The generation of the handle.
    pub fn generation(&self) -> (g: u8)
        ensures
            g == self.spec_generation(),
    {
        let v: u32 = self.0;
        assert(v >> 24 <= 0xff) by (bit_vector);
        (self.0 >> ENTITY_INDEX_BITS) as u8
    }
}

} // verus!
