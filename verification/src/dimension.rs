//! The dimension state engine: a grid of lazily generated chunks, an
//! entity table, and a user-supplied chunk generator. All world mutations
//! run through one owner; a handler that has something to broadcast
//! returns it as an effect for the embedding runtime to perform.
use std::collections::HashMap;

use vstd::prelude::*;

use crate::actor::{ActorError, ActorResult};
use crate::blocks::{spec_has_block_id, BlockState};
use crate::chunk::Chunk;
use crate::registry::Registry;
use crate::registries::RegistryContainer;
use crate::section::ChunkSection;
use crate::server::Server;
use crate::values::{Id, Vec2f, Vec3d, Vec3i};

verus! {

broadcast use vstd::std_specs::hash::group_hash_axioms;

/// A user-supplied chunk generator: called once when a chunk is first
/// created, to fill it. An implementation may mutate the chunk through its
/// public interface but must leave it well-formed and its block-entity map
/// consistent with the registries it was given.
pub trait ChunkGenerator {
    fn generate(
        &self,
        chunk: &mut Chunk,
        x: i32,
        z: i32,
        blocks: &Registry<()>,
        block_entity_types: &Registry<u32>,
    )
        requires
            old(chunk).wf(),
            old(chunk).entities_wf(*blocks, *block_entity_types),
            blocks.wf(),
            block_entity_types.wf(),
        ensures
            final(chunk).wf(),
            final(chunk).entities_wf(*blocks, *block_entity_types),
            final(chunk).min_view() == old(chunk).min_view(),
            final(chunk).max_view() == old(chunk).max_view(),
    ;
}

/// The default chunk generator: a no-op, leaving the chunk all air.
pub struct NoopGenerator;

impl ChunkGenerator for NoopGenerator {
    fn generate(
        &self,
        chunk: &mut Chunk,
        x: i32,
        z: i32,
        blocks: &Registry<()>,
        block_entity_types: &Registry<u32>,
    ) {
    }
}

/// One entity of a dimension: its UUID, the server-assigned numeric id,
/// its type, and its live position and heading.
pub struct EntityData {
    pub entity_type: Id,
    pub uuid: u128,
    pub id: i32,
    pub position: Vec3d,
    pub heading: Vec2f,
}

/// A broadcast or event the dimension asks its caller to perform.
#[allow(inconsistent_fields)]
pub enum DimensionEffect {
    /// A chunk was generated: raise the chunk-load event.
    ChunkLoad { x: i32, z: i32 },
    /// A block changed: send a block update to every player in play.
    BlockUpdate { position: Vec3i, block_id: u32 },
    /// An entity appeared: send an add-entity to players of the dimension.
    AddEntity { uuid: u128, id: i32, entity_type: Id, except: Option<u128> },
    /// An entity left: send a remove-entities to every connection.
    RemoveEntity { id: i32 },
    /// An entity moved or turned: sync it to the dimension's other players.
    PositionSync { uuid: u128, id: i32, position: Vec3d, heading: Vec2f },
}

/// The chunk map's key for a chunk coordinate.
pub open spec fn spec_encode_chunk(cx: i32, cz: i32) -> u64 {
    (((cx as u32) as u64) << 32u64) | ((cz as u32) as u64)
}

/// Every chunk of the grid is well-formed and its block-entity map is
/// consistent with the registries.
pub open spec fn spec_chunks_wf(
    m: Map<u64, Chunk>,
    blocks: Registry<()>,
    block_entity_types: Registry<u32>,
) -> bool {
    forall|k: u64| #[trigger]
        m.contains_key(k) ==> m[k].wf() && m[k].entities_wf(blocks, block_entity_types)
}

/// Entity bookkeeping: every record carries its own key, and the order
/// list enumerates the entity table exactly, without repeats.
pub open spec fn spec_entities_bk(m: Map<u128, EntityData>, order: Seq<u128>) -> bool {
    &&& forall|u: u128| #[trigger] m.contains_key(u) ==> m[u].uuid == u
    &&& forall|i: int| 0 <= i < order.len() ==> m.contains_key(#[trigger] order[i])
    &&& forall|u: u128| #[trigger] m.contains_key(u) ==> order.contains(u)
    &&& forall|i: int, j: int| 0 <= i < j < order.len() ==> order[i] != order[j]
}

pub struct DimensionData<G: ChunkGenerator> {
    name: Id,
    chunks: HashMap<u64, Chunk>,
    entities: HashMap<u128, EntityData>,
    entity_order: Vec<u128>,
    dim_type: Id,
    chunk_generator: G,
    chunk_max: (u32, u32),
}

impl<G: ChunkGenerator> DimensionData<G> {
    pub closed spec fn name_view(&self) -> (Seq<char>, Seq<char>) {
        self.name@
    }

    pub closed spec fn dim_type_view(&self) -> (Seq<char>, Seq<char>) {
        self.dim_type@
    }

    pub closed spec fn chunks_view(&self) -> Map<u64, Chunk> {
        self.chunks@
    }

    pub closed spec fn entities_view(&self) -> Map<u128, EntityData> {
        self.entities@
    }

    /// Entity UUIDs in insertion order.
    pub closed spec fn entity_order_view(&self) -> Seq<u128> {
        self.entity_order@
    }

    pub closed spec fn chunk_max_view(&self) -> (u32, u32) {
        self.chunk_max
    }

    /// Well-formedness: every chunk is well-formed with a consistent
    /// block-entity map, every entity record carries its own key, and the
    /// order list enumerates the entity table exactly, without repeats.
    pub open spec fn wf(&self, blocks: Registry<()>, block_entity_types: Registry<u32>) -> bool {
        &&& spec_chunks_wf(self.chunks_view(), blocks, block_entity_types)
        &&& spec_entities_bk(self.entities_view(), self.entity_order_view())
    }

    pub fn new(name: Id, dim_type: Id, chunk_generator: G) -> (r: DimensionData<G>)
        ensures
            forall|b: Registry<()>, e: Registry<u32>| r.wf(b, e),
            r.name_view() == name@,
            r.dim_type_view() == dim_type@,
            r.chunks_view() == Map::<u64, Chunk>::empty(),
            r.entities_view() == Map::<u128, EntityData>::empty(),
            r.entity_order_view() == Seq::<u128>::empty(),
            r.chunk_max_view() == (0x7fffffffu32, 0x7fffffffu32),
    {
        let r = DimensionData {
            name,
            chunks: HashMap::new(),
            entities: HashMap::new(),
            entity_order: Vec::new(),
            dim_type,
            chunk_generator,
            chunk_max: (0x7fffffff, 0x7fffffff),
        };
        proof {
            assert(r.chunks_view() =~= Map::<u64, Chunk>::empty());
            assert(r.entities_view() =~= Map::<u128, EntityData>::empty());
        }
        r
    }

    /// Get the name of this dimension.
    pub fn name(&self) -> (r: ActorResult<Id>)
        ensures
            r is Ok && r.unwrap()@ == self.name_view(),
    {
        Ok(self.name.clone())
    }

    /// Returns the dimension-type key of this dimension.
    pub fn dimension_type(&self) -> (r: ActorResult<Id>)
        ensures
            r is Ok && r.unwrap()@ == self.dim_type_view(),
    {
        Ok(self.dim_type.clone())
    }

    /// Overrides the function called when a new chunk is generated.
    pub fn set_chunk_generator(&mut self, function: G) -> (r: ActorResult<()>)
        ensures
            r is Ok,
            final(self).chunks_view() == old(self).chunks_view(),
            final(self).entities_view() == old(self).entities_view(),
            final(self).entity_order_view() == old(self).entity_order_view(),
            final(self).chunk_max_view() == old(self).chunk_max_view(),
            final(self).name_view() == old(self).name_view(),
            final(self).dim_type_view() == old(self).dim_type_view(),
    {
        self.chunk_generator = function;
        Ok(())
    }

    /// Spawns a new entity of the given type at the origin, under a fresh
    /// UUID and a fresh server-assigned entity id, and asks the caller to
    /// broadcast an add-entity to the dimension's players.
    pub fn spawn_entity(
        &mut self,
        server: &mut Server,
        entity_type: Id,
        effects: &mut Vec<DimensionEffect>,
    ) -> (r: ActorResult<u128>)
        requires
            spec_entities_bk(old(self).entities_view(), old(self).entity_order_view()),
            old(server).last_entity_id_view() < 0x7fffffff,
        ensures
            spec_entities_bk(final(self).entities_view(), final(self).entity_order_view()),
            final(self).chunks_view() == old(self).chunks_view(),
            final(self).chunk_max_view() == old(self).chunk_max_view(),
            final(self).name_view() == old(self).name_view(),
            final(self).dim_type_view() == old(self).dim_type_view(),
            final(server).connections_view() == old(server).connections_view(),
            final(server).dimensions_view() == old(server).dimensions_view(),
            final(server).registries_view() == old(server).registries_view(),
            match r {
                Ok(u) => {
                    &&& !old(self).entities_view().contains_key(u)
                    &&& final(server).last_entity_id_view() == old(server).last_entity_id_view()
                        + 1
                    &&& final(self).entities_view() == old(self).entities_view().insert(
                        u,
                        EntityData {
                            entity_type,
                            uuid: u,
                            id: (old(server).last_entity_id_view() + 1) as i32,
                            position: Vec3d { x_bits: 0u64, y_bits: 0u64, z_bits: 0u64 },
                            heading: Vec2f { x_bits: 0u32, y_bits: 0u32 },
                        },
                    )
                    &&& final(self).entity_order_view() == old(self).entity_order_view().push(u)
                    &&& final(effects)@ == old(effects)@.push(
                        DimensionEffect::AddEntity {
                            uuid: u,
                            id: (old(server).last_entity_id_view() + 1) as i32,
                            entity_type,
                            except: None,
                        },
                    )
                },
                Err(e) => {
                    &&& e == ActorError::BadRequest
                    &&& final(self).entities_view() == old(self).entities_view()
                    &&& final(self).entity_order_view() == old(self).entity_order_view()
                    &&& final(effects)@ == old(effects)@
                    &&& final(server).last_entity_id_view() == old(server).last_entity_id_view()
                },
            },
    {
        let mut uuid = fresh_uuid();
        let mut attempts: usize = 64;
        while self.entities.contains_key(&uuid) && attempts > 0
            invariant
                spec_entities_bk(self.entities_view(), self.entity_order_view()),
                self.entities_view() == old(self).entities_view(),
            decreases attempts,
        {
            uuid = fresh_uuid();
            attempts = attempts - 1;
        }
        if self.entities.contains_key(&uuid) {
            return Err(ActorError::BadRequest);
        }
        let id = match server.new_entity_id() {
            Ok(id) => id,
            Err(_) => {
                proof {
                    assert(false);
                }
                0
            }
        };
        let record = EntityData {
            entity_type: entity_type.clone(),
            uuid,
            id,
            position: Vec3d::origin(),
            heading: Vec2f::zero(),
        };
        self.entities.insert(uuid, record);
        self.entity_order.push(uuid);
        effects.push(DimensionEffect::AddEntity { uuid, id, entity_type, except: None });
        proof {
            lemma_entities_bk_insert(
                old(self).entities_view(),
                old(self).entity_order_view(),
                uuid,
                self.entities_view()[uuid],
            );
        }
        Ok(uuid)
    }

    /// Record a player entity under its known UUID and entity id, and ask
    /// the caller to broadcast an add-entity to the dimension's other
    /// players.
    pub fn spawn_player_entity(
        &mut self,
        uuid: u128,
        id: i32,
        effects: &mut Vec<DimensionEffect>,
    ) -> (r: ActorResult<()>)
        requires
            spec_entities_bk(old(self).entities_view(), old(self).entity_order_view()),
        ensures
            r is Ok,
            spec_entities_bk(final(self).entities_view(), final(self).entity_order_view()),
            final(self).chunks_view() == old(self).chunks_view(),
            final(self).chunk_max_view() == old(self).chunk_max_view(),
            final(self).name_view() == old(self).name_view(),
            final(self).dim_type_view() == old(self).dim_type_view(),
            final(self).entities_view() == old(self).entities_view().insert(
                uuid,
                final(self).entities_view()[uuid],
            ),
            final(self).entities_view()[uuid].uuid == uuid,
            final(self).entities_view()[uuid].id == id,
            final(self).entities_view()[uuid].entity_type@ == ("minecraft"@, "player"@),
            final(self).entities_view()[uuid].position == (Vec3d {
                x_bits: 0u64,
                y_bits: 0u64,
                z_bits: 0u64,
            }),
            final(self).entities_view()[uuid].heading == (Vec2f { x_bits: 0u32, y_bits: 0u32 }),
            final(self).entity_order_view() == (if old(self).entities_view().contains_key(uuid) {
                old(self).entity_order_view()
            } else {
                old(self).entity_order_view().push(uuid)
            }),
            final(effects)@ == old(effects)@.push(
                DimensionEffect::AddEntity {
                    uuid,
                    id,
                    entity_type: final(self).entities_view()[uuid].entity_type,
                    except: Some(uuid),
                },
            ),
    {
        let entity_type = Id::constant("minecraft", "player");
        let record = EntityData {
            entity_type: entity_type.clone(),
            uuid,
            id,
            position: Vec3d::origin(),
            heading: Vec2f::zero(),
        };
        let known = self.entities.contains_key(&uuid);
        self.entities.insert(uuid, record);
        if !known {
            self.entity_order.push(uuid);
        }
        effects.push(DimensionEffect::AddEntity { uuid, id, entity_type, except: Some(uuid) });
        proof {
            if old(self).entities_view().contains_key(uuid) {
                lemma_entities_bk_overwrite(
                    old(self).entities_view(),
                    old(self).entity_order_view(),
                    uuid,
                    self.entities_view()[uuid],
                );
            } else {
                lemma_entities_bk_insert(
                    old(self).entities_view(),
                    old(self).entity_order_view(),
                    uuid,
                    self.entities_view()[uuid],
                );
            }
        }
        Ok(())
    }

    /// Remove an entity; when it was present, ask the caller to broadcast
    /// a remove-entities to every connection on the server.
    pub fn remove_entity(&mut self, uuid: u128, effects: &mut Vec<DimensionEffect>) -> (r:
        ActorResult<()>)
        requires
            spec_entities_bk(old(self).entities_view(), old(self).entity_order_view()),
        ensures
            r is Ok,
            spec_entities_bk(final(self).entities_view(), final(self).entity_order_view()),
            final(self).chunks_view() == old(self).chunks_view(),
            final(self).chunk_max_view() == old(self).chunk_max_view(),
            final(self).name_view() == old(self).name_view(),
            final(self).dim_type_view() == old(self).dim_type_view(),
            final(self).entities_view() == old(self).entities_view().remove(uuid),
            !final(self).entity_order_view().contains(uuid),
            old(self).entities_view().contains_key(uuid) ==> final(effects)@ == old(effects)@.push(
                DimensionEffect::RemoveEntity { id: old(self).entities_view()[uuid].id },
            ),
            !old(self).entities_view().contains_key(uuid) ==> final(effects)@ == old(effects)@
                && *final(self) == *old(self),
    {
        if !self.entities.contains_key(&uuid) {
            proof {
                assert(self.entities_view() =~= self.entities_view().remove(uuid));
            }
            return Ok(());
        }
        let id = match self.entities.get(&uuid) {
            Some(e) => e.id,
            None => {
                proof {
                    assert(false);
                }
                0
            }
        };
        self.entities.remove(&uuid);
        let index = match self.find_order_index(uuid) {
            Some(i) => i,
            None => {
                proof {
                    assert(false);
                }
                0
            }
        };
        self.entity_order.remove(index);
        effects.push(DimensionEffect::RemoveEntity { id });
        proof {
            lemma_entities_bk_remove(
                old(self).entities_view(),
                old(self).entity_order_view(),
                uuid,
                index as int,
            );
        }
        Ok(())
    }

    /// The position of a UUID in the order list.
    fn find_order_index(&self, uuid: u128) -> (r: Option<usize>)
        ensures
            match r {
                Some(i) => i < self.entity_order_view().len() && self.entity_order_view()[i as int]
                    == uuid,
                None => !self.entity_order_view().contains(uuid),
            },
    {
        let n = self.entity_order.len();
        let mut i: usize = 0;
        while i < n
            invariant
                n == self.entity_order_view().len(),
                i <= n,
                forall|j: int| 0 <= j < i ==> self.entity_order_view()[j] != uuid,
            decreases n - i,
        {
            if self.entity_order[i] == uuid {
                return Some(i);
            }
            i = i + 1;
        }
        None
    }

    /// The numeric entity id of a UUID; an unknown UUID is a bad request.
    pub fn entity_id(&self, uuid: u128) -> (r: ActorResult<i32>)
        ensures
            match r {
                Ok(id) => self.entities_view().contains_key(uuid) && id == self.entities_view()[uuid].id,
                Err(e) => e == ActorError::BadRequest && !self.entities_view().contains_key(uuid),
            },
    {
        match self.entities.get(&uuid) {
            Some(e) => Ok(e.id),
            None => Err(ActorError::BadRequest),
        }
    }

    /// The type key of a UUID's entity; an unknown UUID is a bad request.
    pub fn entity_type(&self, uuid: u128) -> (r: ActorResult<Id>)
        ensures
            match r {
                Ok(t) => self.entities_view().contains_key(uuid) && t
                    == self.entities_view()[uuid].entity_type,
                Err(e) => e == ActorError::BadRequest && !self.entities_view().contains_key(uuid),
            },
    {
        match self.entities.get(&uuid) {
            Some(e) => Ok(e.entity_type.clone()),
            None => Err(ActorError::BadRequest),
        }
    }

    /// The position and heading of a UUID's entity; an unknown UUID is a
    /// bad request.
    pub fn entity_pos(&self, uuid: u128) -> (r: ActorResult<(Vec3d, Vec2f)>)
        ensures
            match r {
                Ok(p) => self.entities_view().contains_key(uuid) && p == (
                    self.entities_view()[uuid].position,
                    self.entities_view()[uuid].heading,
                ),
                Err(e) => e == ActorError::BadRequest && !self.entities_view().contains_key(uuid),
            },
    {
        match self.entities.get(&uuid) {
            Some(e) => Ok((e.position, e.heading)),
            None => Err(ActorError::BadRequest),
        }
    }

    /// Move an entity; when it exists, ask the caller to sync its position
    /// to the dimension's other players. An unknown UUID is a bad request.
    pub fn teleport_entity(
        &mut self,
        uuid: u128,
        position: Vec3d,
        effects: &mut Vec<DimensionEffect>,
    ) -> (r: ActorResult<()>)
        requires
            spec_entities_bk(old(self).entities_view(), old(self).entity_order_view()),
        ensures
            r is Ok <==> old(self).entities_view().contains_key(uuid),
            r is Err ==> r == Err::<(), ActorError>(ActorError::BadRequest),
            spec_entities_bk(final(self).entities_view(), final(self).entity_order_view()),
            final(self).chunks_view() == old(self).chunks_view(),
            final(self).chunk_max_view() == old(self).chunk_max_view(),
            final(self).name_view() == old(self).name_view(),
            final(self).dim_type_view() == old(self).dim_type_view(),
            final(self).entity_order_view() == old(self).entity_order_view(),
            if old(self).entities_view().contains_key(uuid) {
                &&& final(self).entities_view() == old(self).entities_view().insert(
                    uuid,
                    final(self).entities_view()[uuid],
                )
                &&& final(self).entities_view()[uuid].position == position
                &&& final(self).entities_view()[uuid].heading == old(
                    self,
                ).entities_view()[uuid].heading
                &&& final(self).entities_view()[uuid].id == old(self).entities_view()[uuid].id
                &&& final(self).entities_view()[uuid].uuid == uuid
                &&& final(self).entities_view()[uuid].entity_type == old(
                    self,
                ).entities_view()[uuid].entity_type
                &&& final(effects)@ == old(effects)@.push(
                    DimensionEffect::PositionSync {
                        uuid,
                        id: old(self).entities_view()[uuid].id,
                        position,
                        heading: old(self).entities_view()[uuid].heading,
                    },
                )
            } else {
                *final(self) == *old(self) && final(effects)@ == old(effects)@
            },
    {
        let record = match self.entities.get(&uuid) {
            Some(e) => EntityData {
                entity_type: e.entity_type.clone(),
                uuid: e.uuid,
                id: e.id,
                position,
                heading: e.heading,
            },
            None => {
                return Err(ActorError::BadRequest);
            }
        };
        let id = record.id;
        let heading = record.heading;
        self.entities.insert(uuid, record);
        effects.push(DimensionEffect::PositionSync { uuid, id, position, heading });
        proof {
            lemma_entities_bk_overwrite(
                old(self).entities_view(),
                old(self).entity_order_view(),
                uuid,
                self.entities_view()[uuid],
            );
        }
        Ok(())
    }

    /// Turn an entity; when it exists, ask the caller to sync its position
    /// to the dimension's other players. An unknown UUID is a bad request.
    pub fn rotate_entity(
        &mut self,
        uuid: u128,
        heading: Vec2f,
        effects: &mut Vec<DimensionEffect>,
    ) -> (r: ActorResult<()>)
        requires
            spec_entities_bk(old(self).entities_view(), old(self).entity_order_view()),
        ensures
            r is Ok <==> old(self).entities_view().contains_key(uuid),
            r is Err ==> r == Err::<(), ActorError>(ActorError::BadRequest),
            spec_entities_bk(final(self).entities_view(), final(self).entity_order_view()),
            final(self).chunks_view() == old(self).chunks_view(),
            final(self).chunk_max_view() == old(self).chunk_max_view(),
            final(self).name_view() == old(self).name_view(),
            final(self).dim_type_view() == old(self).dim_type_view(),
            final(self).entity_order_view() == old(self).entity_order_view(),
            if old(self).entities_view().contains_key(uuid) {
                &&& final(self).entities_view() == old(self).entities_view().insert(
                    uuid,
                    final(self).entities_view()[uuid],
                )
                &&& final(self).entities_view()[uuid].heading == heading
                &&& final(self).entities_view()[uuid].position == old(
                    self,
                ).entities_view()[uuid].position
                &&& final(self).entities_view()[uuid].id == old(self).entities_view()[uuid].id
                &&& final(self).entities_view()[uuid].uuid == uuid
                &&& final(self).entities_view()[uuid].entity_type == old(
                    self,
                ).entities_view()[uuid].entity_type
                &&& final(effects)@ == old(effects)@.push(
                    DimensionEffect::PositionSync {
                        uuid,
                        id: old(self).entities_view()[uuid].id,
                        position: old(self).entities_view()[uuid].position,
                        heading,
                    },
                )
            } else {
                *final(self) == *old(self) && final(effects)@ == old(effects)@
            },
    {
        let record = match self.entities.get(&uuid) {
            Some(e) => EntityData {
                entity_type: e.entity_type.clone(),
                uuid: e.uuid,
                id: e.id,
                position: e.position,
                heading,
            },
            None => {
                return Err(ActorError::BadRequest);
            }
        };
        let id = record.id;
        let position = record.position;
        self.entities.insert(uuid, record);
        effects.push(DimensionEffect::PositionSync { uuid, id, position, heading });
        proof {
            lemma_entities_bk_overwrite(
                old(self).entities_view(),
                old(self).entity_order_view(),
                uuid,
                self.entities_view()[uuid],
            );
        }
        Ok(())
    }

    /// The UUIDs of all player entities, in insertion order.
    pub fn players(&self) -> (r: ActorResult<Vec<u128>>)
        requires
            spec_entities_bk(self.entities_view(), self.entity_order_view()),
        ensures
            match r {
                Ok(v) => v@ == spec_filter_entities(
                    self.entities_view(),
                    self.entity_order_view(),
                    true,
                ),
                Err(_) => false,
            },
    {
        self.filter_entities(true)
    }

    /// The UUIDs of all non-player entities, in insertion order.
    pub fn entities(&self) -> (r: ActorResult<Vec<u128>>)
        requires
            spec_entities_bk(self.entities_view(), self.entity_order_view()),
        ensures
            match r {
                Ok(v) => v@ == spec_filter_entities(
                    self.entities_view(),
                    self.entity_order_view(),
                    false,
                ),
                Err(_) => false,
            },
    {
        self.filter_entities(false)
    }

    /// The UUIDs of all entities, players included, in insertion order.
    pub fn all_entities(&self) -> (r: ActorResult<Vec<u128>>)
        ensures
            match r {
                Ok(v) => v@ == self.entity_order_view(),
                Err(_) => false,
            },
    {
        let mut v: Vec<u128> = Vec::new();
        let n = self.entity_order.len();
        let mut i: usize = 0;
        while i < n
            invariant
                n == self.entity_order_view().len(),
                i <= n,
                v@ == self.entity_order_view().take(i as int),
            decreases n - i,
        {
            proof {
                assert(self.entity_order_view().take((i + 1) as int) =~= self.entity_order_view().take(i as int).push(self.entity_order_view()[i as int]));
            }
            v.push(self.entity_order[i]);
            i = i + 1;
        }
        proof {
            assert(self.entity_order_view().take(n as int) =~= self.entity_order_view());
        }
        Ok(v)
    }

    fn filter_entities(&self, players: bool) -> (r: ActorResult<Vec<u128>>)
        requires
            spec_entities_bk(self.entities_view(), self.entity_order_view()),
        ensures
            match r {
                Ok(v) => v@ == spec_filter_entities(
                    self.entities_view(),
                    self.entity_order_view(),
                    players,
                ),
                Err(_) => false,
            },
    {
        let player_type = Id::constant("minecraft", "player");
        let mut v: Vec<u128> = Vec::new();
        let n = self.entity_order.len();
        let mut i: usize = 0;
        while i < n
            invariant
                spec_entities_bk(self.entities_view(), self.entity_order_view()),
                n == self.entity_order_view().len(),
                i <= n,
                player_type@ == ("minecraft"@, "player"@),
                v@ == spec_filter_entities(
                    self.entities_view(),
                    self.entity_order_view().take(i as int),
                    players,
                ),
            decreases n - i,
        {
            proof {
                assert(self.entity_order_view().take((i + 1) as int).drop_last()
                    =~= self.entity_order_view().take(i as int));
                assert(self.entity_order_view().take((i + 1) as int).last()
                    == self.entity_order_view()[i as int]);
            }
            let u = self.entity_order[i];
            let is_player = match self.entities.get(&u) {
                Some(e) => &e.entity_type == &player_type,
                None => {
                    proof {
                        assert(false);
                    }
                    false
                }
            };
            if is_player == players {
                v.push(u);
            }
            i = i + 1;
        }
        proof {
            assert(self.entity_order_view().take(n as int) =~= self.entity_order_view());
        }
        Ok(v)
    }

    /// Sets the upper bounds on chunk coordinates this dimension holds.
    pub fn max_chunks(&mut self, x: u32, y: u32) -> (r: ActorResult<()>)
        ensures
            r is Ok,
            final(self).chunk_max_view() == (x, y),
            final(self).chunks_view() == old(self).chunks_view(),
            final(self).entities_view() == old(self).entities_view(),
            final(self).entity_order_view() == old(self).entity_order_view(),
            final(self).name_view() == old(self).name_view(),
            final(self).dim_type_view() == old(self).dim_type_view(),
    {
        self.chunk_max = (x, y);
        Ok(())
    }
}

/// The floor-divided chunk coordinate of a world coordinate.
pub open spec fn spec_chunk_coord(v: int) -> int {
    v / 16
}

/// The chunk-local column coordinate of a world coordinate, in `[0, 16)`.
pub open spec fn spec_local_coord(v: int) -> int {
    v % 16
}

/// The chunk-local position of a world position: x and z reduced to the
/// column, y kept as the world height.
pub open spec fn spec_local_pos_of(position: Vec3i) -> Vec3i {
    Vec3i {
        x: spec_local_coord(position.x as int) as i32,
        y: position.y,
        z: spec_local_coord(position.z as int) as i32,
    }
}

/// The chunk map's key of a world position.
pub open spec fn spec_key_of(position: Vec3i) -> u64 {
    spec_encode_chunk(
        spec_chunk_coord(position.x as int) as i32,
        spec_chunk_coord(position.z as int) as i32,
    )
}

impl<G: ChunkGenerator> DimensionData<G> {
    /// Whether a chunk coordinate lies within the configured bounds.
    pub open spec fn spec_in_bounds(&self, cx: int, cz: int) -> bool {
        cx <= self.chunk_max_view().0 as int && cz <= self.chunk_max_view().1 as int
    }

    fn encode_chunk(cx: i32, cz: i32) -> (r: u64)
        ensures
            r == spec_encode_chunk(cx, cz),
    {
        let x32: u32 = #[verifier::truncate] (cx as u32);
        let z32: u32 = #[verifier::truncate] (cz as u32);
        ((x32 as u64) << 32u64) | (z32 as u64)
    }

    /// Lazily create the chunk at a chunk coordinate: when it is absent
    /// and within bounds, build an empty column whose section range comes
    /// from the dimension type, run the generator over it, store it, and
    /// ask the caller to raise the chunk-load event.
    fn try_initialize_chunk(
        &mut self,
        cx: i32,
        cz: i32,
        regs: &RegistryContainer,
        effects: &mut Vec<DimensionEffect>,
    ) -> (r: ActorResult<()>)
        requires
            spec_chunks_wf(old(self).chunks_view(), regs.blocks, regs.block_entity_types),
            regs.wf(),
        ensures
            spec_chunks_wf(final(self).chunks_view(), regs.blocks, regs.block_entity_types),
            final(self).entities_view() == old(self).entities_view(),
            final(self).entity_order_view() == old(self).entity_order_view(),
            final(self).name_view() == old(self).name_view(),
            final(self).dim_type_view() == old(self).dim_type_view(),
            final(self).chunk_max_view() == old(self).chunk_max_view(),
            match r {
                Ok(()) => {
                    if old(self).chunks_view().contains_key(spec_encode_chunk(cx, cz)) || !old(
                        self,
                    ).spec_in_bounds(cx as int, cz as int) {
                        final(self).chunks_view() == old(self).chunks_view() && final(effects)@
                            == old(effects)@
                    } else {
                        &&& regs.dimension_types.spec_get(old(self).dim_type_view()) is Some
                        &&& final(self).chunks_view() == old(self).chunks_view().insert(
                            spec_encode_chunk(cx, cz),
                            final(self).chunks_view()[spec_encode_chunk(cx, cz)],
                        )
                        &&& {
                            let dt = regs.dimension_types.spec_get(
                                old(self).dim_type_view(),
                            ).unwrap();
                            let c = final(self).chunks_view()[spec_encode_chunk(cx, cz)];
                            c.min_view() == (dt.min_y as int) / 16 && c.max_view() == (dt.min_y
                                + dt.height) / 16
                        }
                        &&& final(effects)@ == old(effects)@.push(
                            DimensionEffect::ChunkLoad { x: cx, z: cz },
                        )
                    }
                },
                Err(e) => {
                    &&& e == ActorError::BadRequest
                    &&& !old(self).chunks_view().contains_key(spec_encode_chunk(cx, cz))
                    &&& old(self).spec_in_bounds(cx as int, cz as int)
                    &&& regs.dimension_types.spec_get(old(self).dim_type_view()) is None
                    &&& final(self).chunks_view() == old(self).chunks_view()
                    &&& final(effects)@ == old(effects)@
                },
            },
    {
        let key = Self::encode_chunk(cx, cz);
        if self.chunks.contains_key(&key) {
            return Ok(());
        }
        if !(cx as i64 <= self.chunk_max.0 as i64 && cz as i64 <= self.chunk_max.1 as i64) {
            return Ok(());
        }
        let (min_y, height) = match regs.dimension_types.get(&self.dim_type) {
            Some(dt) => (dt.min_y, dt.height),
            None => {
                return Err(ActorError::BadRequest);
            }
        };
        let min_sections = crate::values::floor_div_16(min_y);
        let top: i64 = min_y as i64 + height as i64;
        let max_s64: i64 = match top.checked_div_euclid(16) {
            Some(q) => q,
            None => {
                proof {
                    vstd::arithmetic::div_mod::lemma_div_is_ordered(
                        top as int,
                        0x1_8000_0000,
                        16,
                    );
                    vstd::arithmetic::div_mod::lemma_div_is_ordered(
                        -0x8000_0000,
                        top as int,
                        16,
                    );
                    assert(false);
                }
                0
            }
        };
        proof {
            vstd::arithmetic::div_mod::lemma_div_is_ordered(min_y as int, top as int, 16);
            vstd::arithmetic::div_mod::lemma_div_is_ordered(top as int, 0x1_8000_0000, 16);
        }
        let max_sections: i32 = max_s64 as i32;
        let mut chunk = Chunk::new(min_sections, max_sections);
        self.chunk_generator.generate(&mut chunk, cx, cz, &regs.blocks, &regs.block_entity_types);
        self.chunks.insert(key, chunk);
        effects.push(DimensionEffect::ChunkLoad { x: cx, z: cz });
        proof {
            assert forall|k: u64| #[trigger] self.chunks_view().contains_key(k) implies
                self.chunks_view()[k].wf() && self.chunks_view()[k].entities_wf(
                regs.blocks,
                regs.block_entity_types,
            ) by {
                if k != key {
                    assert(old(self).chunks_view().contains_key(k));
                }
            }
        }
        Ok(())
    }
}

impl<G: ChunkGenerator> DimensionData<G> {
    /// Sets a block in this dimension at the given world coordinates to
    /// the provided block state, creating the chunk if need be, and asks
    /// the caller to broadcast a block update to every player in play.
    pub fn set_block(
        &mut self,
        position: Vec3i,
        block_state: BlockState,
        regs: &RegistryContainer,
        effects: &mut Vec<DimensionEffect>,
    ) -> (r: ActorResult<()>)
        requires
            spec_chunks_wf(old(self).chunks_view(), regs.blocks, regs.block_entity_types),
            regs.wf(),
        ensures
            spec_chunks_wf(final(self).chunks_view(), regs.blocks, regs.block_entity_types),
            final(self).entities_view() == old(self).entities_view(),
            final(self).entity_order_view() == old(self).entity_order_view(),
            final(self).name_view() == old(self).name_view(),
            final(self).dim_type_view() == old(self).dim_type_view(),
            final(self).chunk_max_view() == old(self).chunk_max_view(),
            forall|k: u64|
                k != spec_key_of(position) ==> (final(self).chunks_view().contains_key(k) == old(
                    self,
                ).chunks_view().contains_key(k)) && (old(self).chunks_view().contains_key(k)
                    ==> final(self).chunks_view()[k] == old(self).chunks_view()[k]),
            match r {
                Ok(()) => {
                    let key = spec_key_of(position);
                    let local = spec_local_pos_of(position);
                    if final(self).chunks_view().contains_key(key) {
                        let c = final(self).chunks_view()[key];
                        let id = regs.blocks.spec_index_of(block_state.name_view());
                        &&& spec_has_block_id(&regs.blocks, block_state.name_view())
                        &&& c.spec_pos_in_chunk(local) ==> {
                            &&& c.spec_block_id_at(local) == id as u16
                            &&& block_state.data_view() is Some ==> c.spec_data_at(local)
                                == block_state.data_view()
                        }
                        &&& old(self).chunks_view().contains_key(key) ==> {
                            let prior = old(self).chunks_view()[key];
                            &&& prior.spec_pos_in_chunk(local) == c.spec_pos_in_chunk(local)
                            &&& (c.spec_pos_in_chunk(local) && block_state.data_view() is None)
                                ==> c.spec_data_at(local) == prior.spec_data_at(local)
                            &&& forall|q: Vec3i|
                                prior.spec_pos_in_chunk(q) && q != local ==> c.spec_block_id_at(q)
                                    == prior.spec_block_id_at(q) && c.spec_data_at(q)
                                    == prior.spec_data_at(q)
                            &&& !c.spec_pos_in_chunk(local) ==> c.sections_view()
                                == prior.sections_view() && c.be_view() == prior.be_view()
                            &&& final(effects)@ == old(effects)@.push(
                                DimensionEffect::BlockUpdate {
                                    position,
                                    block_id: id as u32,
                                },
                            )
                        }
                        &&& !old(self).chunks_view().contains_key(key) ==> final(effects)@ == old(
                            effects,
                        )@.push(
                            DimensionEffect::ChunkLoad {
                                x: spec_chunk_coord(position.x as int) as i32,
                                z: spec_chunk_coord(position.z as int) as i32,
                            },
                        ).push(DimensionEffect::BlockUpdate { position, block_id: id as u32 })
                    } else {
                        &&& final(self).chunks_view() == old(self).chunks_view()
                        &&& final(effects)@ == old(effects)@
                        &&& !old(self).chunks_view().contains_key(key)
                        &&& !old(self).spec_in_bounds(
                            spec_chunk_coord(position.x as int),
                            spec_chunk_coord(position.z as int),
                        )
                    }
                },
                Err(e) => {
                    let key = spec_key_of(position);
                    let cx = spec_chunk_coord(position.x as int);
                    let cz = spec_chunk_coord(position.z as int);
                    &&& e == ActorError::BadRequest
                    &&& if !old(self).chunks_view().contains_key(key) && old(self).spec_in_bounds(
                        cx,
                        cz,
                    ) && regs.dimension_types.spec_get(old(self).dim_type_view()) is None {
                        final(self).chunks_view() == old(self).chunks_view() && final(effects)@
                            == old(effects)@
                    } else {
                        &&& !spec_has_block_id(&regs.blocks, block_state.name_view())
                        &&& old(self).chunks_view().contains_key(key) ==> final(self).chunks_view()
                            == old(self).chunks_view() && final(effects)@ == old(effects)@
                        &&& !old(self).chunks_view().contains_key(key) ==> {
                            &&& old(self).spec_in_bounds(cx, cz)
                            &&& regs.dimension_types.spec_get(old(self).dim_type_view()) is Some
                            &&& final(self).chunks_view() == old(self).chunks_view().insert(
                                key,
                                final(self).chunks_view()[key],
                            )
                            &&& final(effects)@ == old(effects)@.push(
                                DimensionEffect::ChunkLoad { x: cx as i32, z: cz as i32 },
                            )
                        }
                    }
                },
            },
    {
        let cx = crate::values::floor_div_16(position.x);
        let cz = crate::values::floor_div_16(position.z);
        let lx = crate::values::rem_euclid_16(position.x);
        let lz = crate::values::rem_euclid_16(position.z);
        let local = Vec3i { x: lx, y: position.y, z: lz };
        match self.try_initialize_chunk(cx, cz, regs, effects) {
            Ok(()) => {}
            Err(e) => {
                return Err(e);
            }
        }
        let key = Self::encode_chunk(cx, cz);
        if !self.chunks.contains_key(&key) {
            return Ok(());
        }
        let id: u32 = match block_state.protocol_id(&regs.blocks) {
            Some(id) => id,
            None => {
                return Err(ActorError::BadRequest);
            }
        };
        let ghost pre_write = self.chunks_view();
        let mut chunk = match self.chunks.remove(&key) {
            Some(c) => c,
            None => {
                proof {
                    assert(false);
                }
                Chunk::new(0, 0)
            }
        };
        let res = chunk.set_block_at(local, &block_state, &regs.blocks, &regs.block_entity_types);
        self.chunks.insert(key, chunk);
        proof {
            assert(self.chunks_view() =~= pre_write.insert(key, self.chunks_view()[key]));
        }
        match res {
            Ok(()) => {}
            Err(_) => {
                proof {
                    assert(false);
                }
            }
        }
        effects.push(DimensionEffect::BlockUpdate { position, block_id: id });
        Ok(())
    }

    /// Returns a copy of the block state at the provided world
    /// coordinates, creating the chunk if need be. A position outside the
    /// configured chunk bounds reads as the all-air default and allocates
    /// nothing.
    pub fn get_block(
        &mut self,
        position: Vec3i,
        regs: &RegistryContainer,
        effects: &mut Vec<DimensionEffect>,
    ) -> (r: ActorResult<BlockState>)
        requires
            spec_chunks_wf(old(self).chunks_view(), regs.blocks, regs.block_entity_types),
            regs.wf(),
        ensures
            spec_chunks_wf(final(self).chunks_view(), regs.blocks, regs.block_entity_types),
            final(self).entities_view() == old(self).entities_view(),
            final(self).entity_order_view() == old(self).entity_order_view(),
            final(self).name_view() == old(self).name_view(),
            final(self).dim_type_view() == old(self).dim_type_view(),
            final(self).chunk_max_view() == old(self).chunk_max_view(),
            forall|k: u64|
                k != spec_key_of(position) ==> (final(self).chunks_view().contains_key(k) == old(
                    self,
                ).chunks_view().contains_key(k)) && (old(self).chunks_view().contains_key(k)
                    ==> final(self).chunks_view()[k] == old(self).chunks_view()[k]),
            old(self).chunks_view().contains_key(spec_key_of(position))
                ==> final(self).chunks_view() == old(self).chunks_view() && final(effects)@ == old(
                effects,
            )@,
            match r {
                Ok(b) => {
                    let key = spec_key_of(position);
                    let local = spec_local_pos_of(position);
                    if final(self).chunks_view().contains_key(key) {
                        let c = final(self).chunks_view()[key];
                        if c.spec_pos_in_chunk(local) {
                            &&& (c.spec_block_id_at(local) as int) < regs.blocks@.len()
                            &&& b.name_view() == regs.blocks@[c.spec_block_id_at(local) as int].0
                            &&& b.data_view() == c.spec_data_at(local)
                        } else {
                            &&& regs.blocks@.len() > 0
                            &&& b.name_view() == regs.blocks@[0].0
                            &&& b.data_view() is None
                        }
                    } else {
                        &&& final(self).chunks_view() == old(self).chunks_view()
                        &&& final(effects)@ == old(effects)@
                        &&& !old(self).chunks_view().contains_key(key)
                        &&& !old(self).spec_in_bounds(
                            spec_chunk_coord(position.x as int),
                            spec_chunk_coord(position.z as int),
                        )
                        &&& regs.blocks@.len() > 0
                        &&& b.name_view() == regs.blocks@[0].0
                        &&& b.data_view() is None
                    }
                },
                Err(e) => {
                    let key = spec_key_of(position);
                    let local = spec_local_pos_of(position);
                    let cx = spec_chunk_coord(position.x as int);
                    let cz = spec_chunk_coord(position.z as int);
                    &&& e == ActorError::BadRequest
                    &&& if final(self).chunks_view().contains_key(key) {
                        let c = final(self).chunks_view()[key];
                        &&& if c.spec_pos_in_chunk(local) {
                            (c.spec_block_id_at(local) as int) >= regs.blocks@.len()
                        } else {
                            regs.blocks@.len() == 0
                        }
                        &&& old(self).chunks_view().contains_key(key) ==> final(self).chunks_view()
                            == old(self).chunks_view() && final(effects)@ == old(effects)@
                        &&& !old(self).chunks_view().contains_key(key) ==> final(self).chunks_view()
                            == old(self).chunks_view().insert(key, c) && final(effects)@ == old(
                            effects,
                        )@.push(DimensionEffect::ChunkLoad { x: cx as i32, z: cz as i32 })
                    } else {
                        &&& !old(self).chunks_view().contains_key(key)
                        &&& final(self).chunks_view() == old(self).chunks_view()
                        &&& final(effects)@ == old(effects)@
                        &&& if old(self).spec_in_bounds(cx, cz) {
                            regs.dimension_types.spec_get(old(self).dim_type_view()) is None
                        } else {
                            regs.blocks@.len() == 0
                        }
                    }
                },
            },
    {
        let cx = crate::values::floor_div_16(position.x);
        let cz = crate::values::floor_div_16(position.z);
        let lx = crate::values::rem_euclid_16(position.x);
        let lz = crate::values::rem_euclid_16(position.z);
        let local = Vec3i { x: lx, y: position.y, z: lz };
        match self.try_initialize_chunk(cx, cz, regs, effects) {
            Ok(()) => {}
            Err(e) => {
                return Err(e);
            }
        }
        let key = Self::encode_chunk(cx, cz);
        match self.chunks.get(&key) {
            Some(chunk) => chunk.get_block_at(local, &regs.blocks),
            None => {
                match BlockState::from_protocol_id(0, &regs.blocks) {
                    Some(b) => Ok(b),
                    None => Err(ActorError::BadRequest),
                }
            }
        }
    }

    /// Returns a copy of the 16x16x16 chunk section at the provided
    /// coordinates — x and z are chunk coordinates, y a world height —
    /// creating the chunk if need be. `None` when the chunk is outside the
    /// configured bounds.
    pub fn get_chunk_section(
        &mut self,
        position: Vec3i,
        regs: &RegistryContainer,
        effects: &mut Vec<DimensionEffect>,
    ) -> (r: ActorResult<Option<ChunkSection>>)
        requires
            spec_chunks_wf(old(self).chunks_view(), regs.blocks, regs.block_entity_types),
            regs.wf(),
        ensures
            spec_chunks_wf(final(self).chunks_view(), regs.blocks, regs.block_entity_types),
            final(self).entities_view() == old(self).entities_view(),
            final(self).entity_order_view() == old(self).entity_order_view(),
            final(self).name_view() == old(self).name_view(),
            final(self).dim_type_view() == old(self).dim_type_view(),
            final(self).chunk_max_view() == old(self).chunk_max_view(),
            forall|k: u64|
                k != spec_encode_chunk(position.x, position.z)
                    ==> (final(self).chunks_view().contains_key(k) == old(
                    self,
                ).chunks_view().contains_key(k)) && (old(self).chunks_view().contains_key(k)
                    ==> final(self).chunks_view()[k] == old(self).chunks_view()[k]),
            match r {
                Ok(Some(s)) => {
                    let key = spec_encode_chunk(position.x, position.z);
                    &&& final(self).chunks_view().contains_key(key)
                    &&& {
                        let c = final(self).chunks_view()[key];
                        let sidx = (position.y as int) / 16 - c.min_view();
                        &&& 0 <= sidx < c.sections_view().len()
                        &&& s.blocks_view() == c.sections_view()[sidx].blocks_view()
                        &&& s.meta_view() == c.sections_view()[sidx].meta_view()
                        &&& s.count_view() == c.sections_view()[sidx].count_view()
                    }
                },
                Ok(None) => {
                    &&& !final(self).chunks_view().contains_key(
                        spec_encode_chunk(position.x, position.z),
                    )
                    &&& !old(self).chunks_view().contains_key(
                        spec_encode_chunk(position.x, position.z),
                    )
                    &&& !old(self).spec_in_bounds(position.x as int, position.z as int)
                    &&& final(self).chunks_view() == old(self).chunks_view()
                    &&& final(effects)@ == old(effects)@
                },
                Err(ActorError::IndexOutOfBounds) => {
                    let key = spec_encode_chunk(position.x, position.z);
                    &&& final(self).chunks_view().contains_key(key)
                    &&& {
                        let c = final(self).chunks_view()[key];
                        !(c.min_view() <= (position.y as int) / 16 < c.max_view())
                    }
                },
                Err(ActorError::BadRequest) => {
                    &&& !old(self).chunks_view().contains_key(
                        spec_encode_chunk(position.x, position.z),
                    )
                    &&& old(self).spec_in_bounds(position.x as int, position.z as int)
                    &&& regs.dimension_types.spec_get(old(self).dim_type_view()) is None
                    &&& final(self).chunks_view() == old(self).chunks_view()
                    &&& final(effects)@ == old(effects)@
                },
                Err(_) => false,
            },
    {
        match self.try_initialize_chunk(position.x, position.z, regs, effects) {
            Ok(()) => {}
            Err(e) => {
                return Err(e);
            }
        }
        let key = Self::encode_chunk(position.x, position.z);
        let chunk_y = crate::values::floor_div_16(position.y);
        match self.chunks.get(&key) {
            Some(chunk) => {
                match chunk.section_at(chunk_y) {
                    Some(section) => Ok(Some(section.clone())),
                    None => Err(ActorError::IndexOutOfBounds),
                }
            }
            None => Ok(None),
        }
    }
}

/// Relies on uuid::Uuid::new_v4: a freshly generated random version-4
/// UUID, carried as its 128-bit value. Nothing can be promised of a random
/// draw, so the contract is empty; callers test what they need of it.
#[verifier::external_body]
fn fresh_uuid() -> u128 {
    uuid::Uuid::new_v4().as_u128()
}

/// The entity UUIDs whose record's type is (for `players`) or is not (for
/// `!players`) the player type, in the given order.
pub open spec fn spec_filter_entities(
    m: Map<u128, EntityData>,
    order: Seq<u128>,
    players: bool,
) -> Seq<u128>
    decreases order.len(),
{
    if order.len() == 0 {
        Seq::empty()
    } else {
        let front = spec_filter_entities(m, order.drop_last(), players);
        let u = order.last();
        if m.contains_key(u) && ((m[u].entity_type@ == ("minecraft"@, "player"@)) == players) {
            front.push(u)
        } else {
            front
        }
    }
}

proof fn lemma_entities_bk_insert(
    m: Map<u128, EntityData>,
    order: Seq<u128>,
    u: u128,
    rec: EntityData,
)
    requires
        spec_entities_bk(m, order),
        !m.contains_key(u),
        rec.uuid == u,
    ensures
        spec_entities_bk(m.insert(u, rec), order.push(u)),
{
    let m2 = m.insert(u, rec);
    let o2 = order.push(u);
    assert(!order.contains(u)) by {
        if order.contains(u) {
            let i = choose|i: int| 0 <= i < order.len() && order[i] == u;
            assert(m.contains_key(order[i]));
        }
    }
    assert forall|i: int| 0 <= i < o2.len() implies m2.contains_key(#[trigger] o2[i]) by {
        if i < order.len() {
            assert(m.contains_key(order[i]));
        }
    }
    assert forall|w: u128| #[trigger] m2.contains_key(w) implies o2.contains(w) by {
        if w == u {
            assert(o2[order.len() as int] == u);
        } else {
            assert(m.contains_key(w));
            assert(order.contains(w));
            let j = choose|j: int| 0 <= j < order.len() && order[j] == w;
            assert(o2[j] == w);
        }
    }
    assert forall|i: int, j: int| 0 <= i < j < o2.len() implies o2[i] != o2[j] by {
        if j == order.len() as int {
            assert(o2[i] == order[i]);
            if order[i] == u {
                assert(m.contains_key(order[i]));
            }
        }
    }
}

proof fn lemma_entities_bk_overwrite(
    m: Map<u128, EntityData>,
    order: Seq<u128>,
    u: u128,
    rec: EntityData,
)
    requires
        spec_entities_bk(m, order),
        m.contains_key(u),
        rec.uuid == u,
    ensures
        spec_entities_bk(m.insert(u, rec), order),
{
    let m2 = m.insert(u, rec);
    assert forall|i: int| 0 <= i < order.len() implies m2.contains_key(#[trigger] order[i]) by {
        assert(m.contains_key(order[i]));
    }
    assert forall|w: u128| #[trigger] m2.contains_key(w) implies order.contains(w) by {
        assert(m.contains_key(w));
    }
}

proof fn lemma_entities_bk_remove(m: Map<u128, EntityData>, order: Seq<u128>, u: u128, idx: int)
    requires
        spec_entities_bk(m, order),
        m.contains_key(u),
        0 <= idx < order.len(),
        order[idx] == u,
    ensures
        spec_entities_bk(m.remove(u), order.remove(idx)),
        !order.remove(idx).contains(u),
{
    let m2 = m.remove(u);
    let o2 = order.remove(idx);
    assert forall|i: int| 0 <= i < o2.len() implies m2.contains_key(#[trigger] o2[i]) && o2[i]
        != u by {
        if i < idx {
            assert(o2[i] == order[i]);
            assert(order[i] != order[idx]);
            assert(m.contains_key(order[i]));
        } else {
            assert(o2[i] == order[i + 1]);
            assert(order[idx] != order[i + 1]);
            assert(m.contains_key(order[i + 1]));
        }
    }
    assert forall|w: u128| #[trigger] m2.contains_key(w) implies o2.contains(w) by {
        assert(m.contains_key(w));
        assert(order.contains(w));
        let j = choose|j: int| 0 <= j < order.len() && order[j] == w;
        assert(w != u);
        assert(j != idx);
        if j < idx {
            assert(o2[j] == w);
        } else {
            assert(o2[j - 1] == w);
        }
    }
    assert forall|i: int, j: int| 0 <= i < j < o2.len() implies o2[i] != o2[j] by {
        if j < idx {
            assert(o2[i] == order[i] && o2[j] == order[j]);
        } else if i < idx {
            assert(o2[i] == order[i] && o2[j] == order[j + 1]);
        } else {
            assert(o2[i] == order[i + 1] && o2[j] == order[j + 1]);
        }
    }
    if o2.contains(u) {
        let i = choose|i: int| 0 <= i < o2.len() && o2[i] == u;
        assert(o2[i] != u);
    }
}

} // verus!
