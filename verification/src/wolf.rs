//! The wolf-variant registry value: the texture set and biome list of one
//! wolf variant.
use vstd::prelude::*;

use crate::values::Id;

verus! {

pub struct WolfVariant {
    pub angry_texture: Id,
    pub wild_texture: Id,
    pub tame_texture: Id,
    pub biomes: Vec<Id>,
}

impl WolfVariant {
    pub fn new(angry_texture: Id, wild_texture: Id, tame_texture: Id, biomes: Vec<Id>) -> (r:
        WolfVariant)
        ensures
            r.angry_texture@ == angry_texture@,
            r.wild_texture@ == wild_texture@,
            r.tame_texture@ == tame_texture@,
            r.biomes@ == biomes@,
    {
        WolfVariant { angry_texture, wild_texture, tame_texture, biomes }
    }
}

} // verus!
