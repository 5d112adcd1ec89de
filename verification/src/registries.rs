//! The shared registry container the server owns: frozen after
//! construction, consulted by dimensions for dimension types, block ids,
//! block-entity types, entity types and biomes.
use vstd::prelude::*;

use crate::registry::Registry;

verus! {

/// A dimension type: the vertical extent of its worlds.
pub struct DimensionType {
    pub min_y: i32,
    pub height: u32,
}

pub struct RegistryContainer {
    /// Dimension-type key to vertical extent.
    pub dimension_types: Registry<DimensionType>,
    /// Block name to unit; the entry index is the global block-state id.
    pub blocks: Registry<()>,
    /// Block name to the block-entity type id its blocks carry.
    pub block_entity_types: Registry<u32>,
    /// Entity-type key to protocol id.
    pub entity_types: Registry<u32>,
    /// Biome key to protocol id.
    pub biomes: Registry<u32>,
}

impl RegistryContainer {
    pub open spec fn wf(&self) -> bool {
        &&& self.dimension_types.wf()
        &&& self.blocks.wf()
        &&& self.block_entity_types.wf()
        &&& self.entity_types.wf()
        &&& self.biomes.wf()
    }

    pub fn new() -> (r: RegistryContainer)
        ensures
            r.wf(),
            r.dimension_types@.len() == 0,
            r.blocks@.len() == 0,
            r.block_entity_types@.len() == 0,
            r.entity_types@.len() == 0,
            r.biomes@.len() == 0,
    {
        RegistryContainer {
            dimension_types: Registry::new(),
            blocks: Registry::new(),
            block_entity_types: Registry::new(),
            entity_types: Registry::new(),
            biomes: Registry::new(),
        }
    }
}

} // verus!
