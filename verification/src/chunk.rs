//! A chunk: a vertical column of sections between `min_section` and
//! `max_section` (exclusive upper), plus a map from block position to the
//! block-entity type id of positions whose current block carries one.
use std::collections::HashMap;

use vstd::prelude::*;

use crate::actor::{ActorError, ActorResult};
use crate::blocks::{spec_has_block_id, BlockState, BLOCK_ID_LIMIT};
use crate::registry::Registry;
use crate::section::{spec_index, ChunkSection};
use crate::values::{UVec3, Vec3i};

verus! {

broadcast use vstd::std_specs::hash::group_hash_axioms;

/// The block-entity map's key for a chunk-local position: the x and z
/// nibbles and the full 32-bit y, packed into the low 40 bits.
pub open spec fn spec_encode_pos(p: Vec3i) -> u64 {
    (p.x as u64) | ((p.z as u64) << 4u64) | (((p.y as u32) as u64) << 8u64)
}

/// The position a well-formed key stands for.
pub open spec fn spec_decode_pos(k: u64) -> Vec3i {
    Vec3i { x: (k & 0xf) as i32, y: ((k >> 8u64) as u32) as i32, z: ((k >> 4u64) & 0xf) as i32 }
}

proof fn lemma_encode_decode_scalar(px: i32, py: i32, pz: i32)
    requires
        0 <= px < 16,
        0 <= pz < 16,
    ensures
        ({
            let k = (px as u64) | ((pz as u64) << 4u64) | (((py as u32) as u64) << 8u64);
            &&& ((k & 0xf) as i32) == px
            &&& (((k >> 4u64) & 0xf) as i32) == pz
            &&& (((k >> 8u64) as u32) as i32) == py
            &&& k < 0x100_0000_0000u64
        }),
{
    assert(({
        let k = (px as u64) | ((pz as u64) << 4u64) | (((py as u32) as u64) << 8u64);
        (((k & 0xf) as i32) == px) && ((((k >> 4u64) & 0xf) as i32) == pz) && ((((k >> 8u64) as u32)
            as i32) == py) && (k < 0x100_0000_0000u64)
    })) by (bit_vector)
        requires
            0 <= px < 16,
            0 <= pz < 16,
    ;
}

proof fn lemma_encode_decode(p: Vec3i)
    requires
        0 <= p.x < 16,
        0 <= p.z < 16,
    ensures
        spec_decode_pos(spec_encode_pos(p)) == p,
        spec_encode_pos(p) < 0x100_0000_0000u64,
{
    lemma_encode_decode_scalar(p.x, p.y, p.z);
}

proof fn lemma_decode_encode_scalar(k: u64)
    requires
        k < 0x100_0000_0000u64,
    ensures
        ({
            let x = (k & 0xf) as i32;
            let z = ((k >> 4u64) & 0xf) as i32;
            let y = ((k >> 8u64) as u32) as i32;
            &&& ((x as u64) | ((z as u64) << 4u64) | (((y as u32) as u64) << 8u64)) == k
            &&& 0 <= x < 16
            &&& 0 <= z < 16
        }),
{
    assert(({
        let x = (k & 0xf) as i32;
        let z = ((k >> 4u64) & 0xf) as i32;
        let y = ((k >> 8u64) as u32) as i32;
        (((x as u64) | ((z as u64) << 4u64) | (((y as u32) as u64) << 8u64)) == k) && (0 <= x < 16)
            && (0 <= z < 16)
    })) by (bit_vector)
        requires
            k < 0x100_0000_0000u64,
    ;
}

proof fn lemma_decode_encode(k: u64)
    requires
        k < 0x100_0000_0000u64,
    ensures
        spec_encode_pos(spec_decode_pos(k)) == k,
        0 <= spec_decode_pos(k).x < 16,
        0 <= spec_decode_pos(k).z < 16,
{
    lemma_decode_encode_scalar(k);
}

pub struct Chunk {
    min_section: i32,
    max_section: i32,
    sections: Vec<ChunkSection>,
    block_entities: HashMap<u64, u32>,
}

impl Chunk {
    pub closed spec fn min_view(&self) -> int {
        self.min_section as int
    }

    pub closed spec fn max_view(&self) -> int {
        self.max_section as int
    }

    pub closed spec fn sections_view(&self) -> Seq<ChunkSection> {
        self.sections@
    }

    pub closed spec fn be_view(&self) -> Map<u64, u32> {
        self.block_entities@
    }

    pub open spec fn spec_total_sections(&self) -> int {
        self.max_view() - self.min_view()
    }

    /// A position's offset above the column's bottom block.
    pub open spec fn spec_y_offset(&self, y: int) -> int {
        y - self.min_view() * 16
    }

    pub open spec fn spec_y_in_range(&self, y: int) -> bool {
        0 <= self.spec_y_offset(y) < self.spec_total_sections() * 16
    }

    /// Whether a chunk-local position addresses a stored cell: x and z in
    /// `[0, 16)` and y within the section range.
    pub open spec fn spec_pos_in_chunk(&self, q: Vec3i) -> bool {
        &&& 0 <= q.x < 16
        &&& 0 <= q.z < 16
        &&& self.spec_y_in_range(q.y as int)
    }

    pub open spec fn spec_section_of(&self, y: int) -> int {
        self.spec_y_offset(y) / 16
    }

    pub open spec fn spec_local_pos(&self, q: Vec3i) -> UVec3 {
        UVec3 { x: q.x as usize, y: (self.spec_y_offset(q.y as int) % 16) as usize, z: q.z as usize }
    }

    /// The stored block id at a position.
    pub open spec fn spec_block_id_at(&self, q: Vec3i) -> u16 {
        self.sections_view()[self.spec_section_of(q.y as int)].blocks_view()[spec_index(
            self.spec_local_pos(q),
        )]
    }

    /// The stored custom data at a position.
    pub open spec fn spec_data_at(&self, q: Vec3i) -> Option<Seq<u8>> {
        let s = self.sections_view()[self.spec_section_of(q.y as int)];
        let li = spec_index(self.spec_local_pos(q)) as u16;
        if s.meta_view().contains_key(li) {
            Some(s.meta_view()[li])
        } else {
            None
        }
    }

    /// Well-formedness: the section count equals `max_section - min_section`
    /// and every section is well-formed.
    pub open spec fn wf(&self) -> bool {
        &&& self.min_view() <= self.max_view()
        &&& self.sections_view().len() == self.spec_total_sections()
        &&& forall|i: int| 0 <= i < self.sections_view().len() ==> self.sections_view()[i].wf()
    }

    /// Block-entity consistency: every entry of the block-entity map is
    /// keyed by a well-formed encoding of an in-range position, and the
    /// block stored at that position has a name registered for exactly the
    /// entry's block-entity type id.
    pub open spec fn entities_wf(&self, blocks: Registry<()>, bes: Registry<u32>) -> bool {
        forall|k: u64| #[trigger]
            self.be_view().contains_key(k) ==> {
                let p = spec_decode_pos(k);
                &&& k < 0x100_0000_0000u64
                &&& self.spec_pos_in_chunk(p)
                &&& (self.spec_block_id_at(p) as int) < blocks@.len()
                &&& bes.spec_get(blocks@[self.spec_block_id_at(p) as int].0) == Some(
                    self.be_view()[k],
                )
            }
    }

    pub fn min_section(&self) -> (r: i32)
        ensures
            r == self.min_view(),
    {
        self.min_section
    }

    pub fn max_section(&self) -> (r: i32)
        ensures
            r == self.max_view(),
    {
        self.max_section
    }

    /// The section at an absolute section coordinate, when the chunk holds
    /// it.
    pub fn section_at(&self, section: i32) -> (r: Option<&ChunkSection>)
        requires
            self.wf(),
        ensures
            match r {
                Some(s) => self.min_view() <= (section as int) < self.max_view() && *s
                    == self.sections_view()[section as int - self.min_view()],
                None => !(self.min_view() <= (section as int) < self.max_view()),
            },
    {
        let idx64: i64 = section as i64 - self.min_section as i64;
        if idx64 >= 0 && idx64 < self.sections.len() as i64 {
            Some(&self.sections[idx64 as usize])
        } else {
            None
        }
    }

    /// The block-entity type id recorded at a chunk-local position, when
    /// the block there carries one.
    pub fn block_entity_type_at(&self, pos: Vec3i) -> (r: Option<u32>)
        requires
            0 <= pos.x < 16,
            0 <= pos.z < 16,
        ensures
            match r {
                Some(t) => self.be_view().contains_key(spec_encode_pos(pos)) && t == self.be_view()[spec_encode_pos(pos)],
                None => !self.be_view().contains_key(spec_encode_pos(pos)),
            },
    {
        let k = Self::encode_pos(pos);
        match self.block_entities.get(&k) {
            Some(t) => Some(*t),
            None => None,
        }
    }

    /// Allocate `max_section - min_section` all-air sections and an empty
    /// block-entity map.
    pub fn new(min_section: i32, max_section: i32) -> (r: Chunk)
        requires
            min_section <= max_section,
        ensures
            r.wf(),
            r.min_view() == min_section,
            r.max_view() == max_section,
            r.be_view() == Map::<u64, u32>::empty(),
            forall|q: Vec3i| r.spec_pos_in_chunk(q) ==> r.spec_block_id_at(q) == 0,
            forall|q: Vec3i| r.spec_pos_in_chunk(q) ==> r.spec_data_at(q) is None,
    {
        let total: i64 = max_section as i64 - min_section as i64;
        let mut sections: Vec<ChunkSection> = Vec::new();
        let mut i: i64 = 0;
        while i < total
            invariant
                0 <= i <= total,
                sections@.len() == i,
                forall|j: int|
                    0 <= j < i ==> (#[trigger] sections@[j]).wf() && sections@[j].count_view() == 0
                        && sections@[j].meta_view() == Map::<u16, Seq<u8>>::empty() && forall|l: int|
                        0 <= l < sections@[j].blocks_view().len() ==> sections@[j].blocks_view()[l]
                            == 0,
            decreases total - i,
        {
            sections.push(ChunkSection::empty());
            i = i + 1;
        }
        let r = Chunk { min_section, max_section, sections, block_entities: HashMap::new() };
        proof {
            assert(r.be_view() =~= Map::<u64, u32>::empty());
            assert forall|q: Vec3i| r.spec_pos_in_chunk(q) implies r.spec_block_id_at(q) == 0
            && r.spec_data_at(q) is None by {
            lemma_chunk_pos_math(r.min_view(), r.spec_total_sections(), q);
            }
        }
        r
    }
    fn encode_pos(pos: Vec3i) -> (r: u64)
        requires
            0 <= pos.x < 16,
            0 <= pos.z < 16,
        ensures
            r == spec_encode_pos(pos),
    {
        let y32: u32 = #[verifier::truncate] (pos.y as u32);
        (pos.x as u64) | ((pos.z as u64) << 4u64) | ((y32 as u64) << 8u64)
    }

    /// Write a block state at a chunk-local position: x and z in `[0, 16)`,
    /// y in world coordinates. A position whose column is outside `[0, 16)`
    /// is rejected; a y outside the section range is ignored, as a write
    /// into a section the chunk does not hold. On success the block id is
    /// stored and the block-entity map follows the registry: a name with a
    /// registered block-entity type gets an entry, any other name clears
    /// the position's entry.
    pub fn set_block_at(
        &mut self,
        pos: Vec3i,
        block: &BlockState,
        blocks_reg: &Registry<()>,
        be_reg: &Registry<u32>,
    ) -> (r: ActorResult<()>)
        requires
            old(self).wf(),
            old(self).entities_wf(*blocks_reg, *be_reg),
            blocks_reg.wf(),
            be_reg.wf(),
        ensures
            final(self).wf(),
            final(self).entities_wf(*blocks_reg, *be_reg),
            final(self).min_view() == old(self).min_view(),
            final(self).max_view() == old(self).max_view(),
            match r {
                Ok(()) => {
                    &&& 0 <= pos.x < 16
                    &&& 0 <= pos.z < 16
                    &&& if !old(self).spec_y_in_range(pos.y as int) {
                        final(self).sections_view() == old(self).sections_view() && final(self).be_view() == old(self).be_view()
                    } else {
                        &&& spec_has_block_id(blocks_reg, block.name_view())
                        &&& final(self).spec_block_id_at(pos) == blocks_reg.spec_index_of(
                            block.name_view(),
                        ) as u16
                        &&& forall|q: Vec3i|
                            old(self).spec_pos_in_chunk(q) && q != pos
                                ==> final(self).spec_block_id_at(q) == old(self).spec_block_id_at(q)
                                && final(self).spec_data_at(q) == old(self).spec_data_at(q)
                        &&& final(self).spec_data_at(pos) == (match block.data_view() {
                            Some(d) => Some(d),
                            None => old(self).spec_data_at(pos),
                        })
                        &&& final(self).be_view() == (match be_reg.spec_get(block.name_view()) {
                            Some(t) => old(self).be_view().insert(spec_encode_pos(pos), t),
                            None => old(self).be_view().remove(spec_encode_pos(pos)),
                        })
                    }
                },
                Err(ActorError::IndexOutOfBounds) => {
                    &&& !(0 <= pos.x < 16 && 0 <= pos.z < 16)
                    &&& *final(self) == *old(self)
                },
                Err(ActorError::BadRequest) => {
                    &&& 0 <= pos.x < 16
                    &&& 0 <= pos.z < 16
                    &&& old(self).spec_y_in_range(pos.y as int)
                    &&& !spec_has_block_id(blocks_reg, block.name_view())
                    &&& final(self).sections_view() == old(self).sections_view()
                    &&& final(self).be_view() == old(self).be_view()
                },
                Err(_) => false,
            },
    {
        if pos.x < 0 || pos.x >= 16 || pos.z < 0 || pos.z >= 16 {
            return Err(ActorError::IndexOutOfBounds);
        }
        let off: i64 = pos.y as i64 - (self.min_section as i64) * 16;
        let total: i64 = self.max_section as i64 - self.min_section as i64;
        if off < 0 || off >= total * 16 {
            return Ok(());
        }
        proof {
            lemma_chunk_pos_math(self.min_view(), self.spec_total_sections(), pos);
        }
        let sidx: usize = (off / 16) as usize;
        let ly: usize = (off % 16) as usize;
        let local = UVec3 { x: pos.x as usize, y: ly, z: pos.z as usize };
        proof {
            assert(local == old(self).spec_local_pos(pos));
            assert(sidx as int == old(self).spec_section_of(pos.y as int));
        }
        let ghost old_sections = self.sections@;
        let res = {
            let section = &mut self.sections[sidx];
            section.set_block_at(local, block, blocks_reg)
        };
        match res {
            Err(e) => {
                proof {
                    assert(self.sections@ =~= old_sections);
                    assert(e == ActorError::BadRequest);
                    lemma_same_cells(old(self), self);
                    assert forall|k: u64| #[trigger] self.be_view().contains_key(k) implies {
                        let p = spec_decode_pos(k);
                        &&& k < 0x100_0000_0000u64
                        &&& self.spec_pos_in_chunk(p)
                        &&& (self.spec_block_id_at(p) as int) < blocks_reg@.len()
                        &&& be_reg.spec_get(blocks_reg@[self.spec_block_id_at(p) as int].0)
                            == Some(self.be_view()[k])
                    } by {
                        assert(old(self).be_view().contains_key(k));
                        let p = spec_decode_pos(k);
                        assert(old(self).spec_pos_in_chunk(p));
                        assert(self.spec_block_id_at(p) == old(self).spec_block_id_at(p));
                    }
                }
                Err(ActorError::BadRequest)
            }
            Ok(()) => {
                proof {
                    lemma_set_pointwise(old(self), self, pos, sidx as int);
                }
                match be_reg.get(block.name()) {
                    Some(t) => {
                        let t: u32 = *t;
                        let k = Self::encode_pos(pos);
                        self.block_entities.insert(k, t);
                        proof {
                            let id = blocks_reg.spec_index_of(block.name_view());
                            assert(self.spec_block_id_at(pos) as int == id);
                            assert(blocks_reg@[id].0 == block.name_view());
                            assert(self.be_view() == old(self).be_view().insert(
                                spec_encode_pos(pos),
                                t,
                            ));
                        }
                    }
                    None => {
                        let k = Self::encode_pos(pos);
                        self.block_entities.remove(&k);
                    }
                }
                proof {
                    lemma_entities_wf_after_set(old(self), self, pos, *blocks_reg, *be_reg);
                }
                Ok(())
            }
        }
    }
    /// Write a raw block-state id at a chunk-local position. The same
    /// shape as `set_block_at`, but the id is given directly; the
    /// block-entity map still follows the registries, looking the id's
    /// name up in the block registry.
    pub fn set_block_at_by_id(
        &mut self,
        pos: Vec3i,
        block_id: u32,
        blocks_reg: &Registry<()>,
        be_reg: &Registry<u32>,
    ) -> (r: ActorResult<()>)
        requires
            old(self).wf(),
            old(self).entities_wf(*blocks_reg, *be_reg),
            blocks_reg.wf(),
            be_reg.wf(),
        ensures
            final(self).wf(),
            final(self).entities_wf(*blocks_reg, *be_reg),
            final(self).min_view() == old(self).min_view(),
            final(self).max_view() == old(self).max_view(),
            match r {
                Ok(()) => {
                    &&& 0 <= pos.x < 16
                    &&& 0 <= pos.z < 16
                    &&& if !old(self).spec_y_in_range(pos.y as int) {
                        final(self).sections_view() == old(self).sections_view() && final(self).be_view() == old(self).be_view()
                    } else {
                        &&& block_id < BLOCK_ID_LIMIT
                        &&& final(self).spec_block_id_at(pos) == block_id as u16
                        &&& forall|q: Vec3i|
                            old(self).spec_pos_in_chunk(q) && q != pos
                                ==> final(self).spec_block_id_at(q) == old(self).spec_block_id_at(q)
                                && final(self).spec_data_at(q) == old(self).spec_data_at(q)
                        &&& final(self).spec_data_at(pos) == old(self).spec_data_at(pos)
                        &&& final(self).be_view() == (if (block_id as int) < blocks_reg@.len()
                            && be_reg.spec_get(blocks_reg@[block_id as int].0) is Some {
                            old(self).be_view().insert(
                                spec_encode_pos(pos),
                                be_reg.spec_get(blocks_reg@[block_id as int].0).unwrap(),
                            )
                        } else {
                            old(self).be_view().remove(spec_encode_pos(pos))
                        })
                    }
                },
                Err(ActorError::IndexOutOfBounds) => {
                    &&& !(0 <= pos.x < 16 && 0 <= pos.z < 16)
                    &&& *final(self) == *old(self)
                },
                Err(ActorError::BadRequest) => {
                    &&& 0 <= pos.x < 16
                    &&& 0 <= pos.z < 16
                    &&& old(self).spec_y_in_range(pos.y as int)
                    &&& block_id >= BLOCK_ID_LIMIT
                    &&& *final(self) == *old(self)
                },
                Err(_) => false,
            },
    {
        if pos.x < 0 || pos.x >= 16 || pos.z < 0 || pos.z >= 16 {
            return Err(ActorError::IndexOutOfBounds);
        }
        let off: i64 = pos.y as i64 - (self.min_section as i64) * 16;
        let total: i64 = self.max_section as i64 - self.min_section as i64;
        if off < 0 || off >= total * 16 {
            return Ok(());
        }
        if block_id >= BLOCK_ID_LIMIT {
            return Err(ActorError::BadRequest);
        }
        proof {
            lemma_chunk_pos_math(self.min_view(), self.spec_total_sections(), pos);
        }
        let sidx: usize = (off / 16) as usize;
        let ly: usize = (off % 16) as usize;
        let local = UVec3 { x: pos.x as usize, y: ly, z: pos.z as usize };
        proof {
            assert(local == old(self).spec_local_pos(pos));
            assert(sidx as int == old(self).spec_section_of(pos.y as int));
        }
        let res = {
            let section = &mut self.sections[sidx];
            section.set_block_at_by_id(local, block_id)
        };
        proof {
            assert(res is Ok);
            lemma_set_pointwise(old(self), self, pos, sidx as int);
        }
        let name = match blocks_reg.key_of(block_id as usize) {
            Some(name) => Some(name.clone()),
            None => None,
        };
        let known = match &name {
            Some(n) => be_reg.get(n),
            None => None,
        };
        match known {
            Some(t) => {
                let t: u32 = *t;
                let k = Self::encode_pos(pos);
                self.block_entities.insert(k, t);
                proof {
                    assert(self.spec_block_id_at(pos) == block_id as u16);
                    assert(self.be_view() == old(self).be_view().insert(spec_encode_pos(pos), t));
                }
            }
            None => {
                let k = Self::encode_pos(pos);
                self.block_entities.remove(&k);
            }
        }
        proof {
            lemma_entities_wf_after_set(old(self), self, pos, *blocks_reg, *be_reg);
        }
        Ok(())
    }

    /// Read the block state at a chunk-local position. A column outside
    /// `[0, 16)` is rejected; a y outside the section range reads as the
    /// all-air default — registry entry zero — without touching any
    /// storage. In range, the stored id's registry name is returned with
    /// the position's custom data re-attached.
    pub fn get_block_at(&self, pos: Vec3i, blocks_reg: &Registry<()>) -> (r: ActorResult<
        BlockState,
    >)
        requires
            self.wf(),
            blocks_reg.wf(),
        ensures
            match r {
                Ok(b) => {
                    &&& 0 <= pos.x < 16
                    &&& 0 <= pos.z < 16
                    &&& if self.spec_pos_in_chunk(pos) {
                        let id = self.spec_block_id_at(pos) as int;
                        &&& id < blocks_reg@.len()
                        &&& b.name_view() == blocks_reg@[id].0
                        &&& b.data_view() == self.spec_data_at(pos)
                    } else {
                        &&& blocks_reg@.len() > 0
                        &&& b.name_view() == blocks_reg@[0].0
                        &&& b.data_view() is None
                    }
                },
                Err(ActorError::IndexOutOfBounds) => !(0 <= pos.x < 16 && 0 <= pos.z < 16),
                Err(ActorError::BadRequest) => {
                    &&& 0 <= pos.x < 16
                    &&& 0 <= pos.z < 16
                    &&& if self.spec_pos_in_chunk(pos) {
                        self.spec_block_id_at(pos) as int >= blocks_reg@.len()
                    } else {
                        blocks_reg@.len() == 0
                    }
                },
                Err(_) => false,
            },
    {
        if pos.x < 0 || pos.x >= 16 || pos.z < 0 || pos.z >= 16 {
            return Err(ActorError::IndexOutOfBounds);
        }
        let off: i64 = pos.y as i64 - (self.min_section as i64) * 16;
        let total: i64 = self.max_section as i64 - self.min_section as i64;
        if off < 0 || off >= total * 16 {
            return match BlockState::from_protocol_id(0, blocks_reg) {
                Some(b) => Ok(b),
                None => Err(ActorError::BadRequest),
            };
        }
        proof {
            lemma_chunk_pos_math(self.min_view(), self.spec_total_sections(), pos);
        }
        let sidx: usize = (off / 16) as usize;
        let ly: usize = (off % 16) as usize;
        let local = UVec3 { x: pos.x as usize, y: ly, z: pos.z as usize };
        proof {
            assert(local == self.spec_local_pos(pos));
            assert(sidx as int == self.spec_section_of(pos.y as int));
        }
        let section = &self.sections[sidx];
        section.get_block_at(local, blocks_reg)
    }
}

/// Two chunks with the same bounds and section contents hold the same
/// cells: equal section sequences give equal ids and data everywhere.
proof fn lemma_same_cells(a: &Chunk, b: &Chunk)
    requires
        a.min_view() == b.min_view(),
        a.max_view() == b.max_view(),
        a.sections_view() == b.sections_view(),
    ensures
        forall|q: Vec3i| #![auto]
            a.spec_pos_in_chunk(q) ==> a.spec_block_id_at(q) == b.spec_block_id_at(q)
                && a.spec_data_at(q) == b.spec_data_at(q),
{
}

/// After a successful section write at `pos`, every other in-range
/// position reads the same id and data as before, and `pos` reads the
/// written id and data.
proof fn lemma_set_pointwise(pre: &Chunk, post: &Chunk, pos: Vec3i, sidx: int)
    requires
        pre.wf(),
        0 <= pos.x < 16,
        0 <= pos.z < 16,
        pre.spec_y_in_range(pos.y as int),
        post.min_view() == pre.min_view(),
        post.max_view() == pre.max_view(),
        sidx == pre.spec_section_of(pos.y as int),
        post.sections_view().len() == pre.sections_view().len(),
        post.sections_view() == pre.sections_view().update(sidx, post.sections_view()[sidx]),
        post.sections_view()[sidx].blocks_view() == pre.sections_view()[sidx].blocks_view().update(
            spec_index(pre.spec_local_pos(pos)),
            post.sections_view()[sidx].blocks_view()[spec_index(pre.spec_local_pos(pos))],
        ),
        post.sections_view()[sidx].meta_view() == pre.sections_view()[sidx].meta_view() || post.sections_view()[sidx].meta_view() == pre.sections_view()[sidx].meta_view().insert(
            spec_index(pre.spec_local_pos(pos)) as u16,
            post.sections_view()[sidx].meta_view()[spec_index(pre.spec_local_pos(pos)) as u16],
        ),
    ensures
        forall|q: Vec3i|
            pre.spec_pos_in_chunk(q) && q != pos ==> post.spec_block_id_at(q)
                == pre.spec_block_id_at(q) && post.spec_data_at(q) == pre.spec_data_at(q),
{
    let minv = pre.min_view();
    let total = pre.spec_total_sections();
    let li = spec_index(pre.spec_local_pos(pos));
    lemma_chunk_pos_math(minv, total, pos);
    assert forall|q: Vec3i| pre.spec_pos_in_chunk(q) && q != pos implies post.spec_block_id_at(q)
        == pre.spec_block_id_at(q) && post.spec_data_at(q) == pre.spec_data_at(q) by {
        lemma_chunk_pos_math(minv, total, q);
        let sq = pre.spec_section_of(q.y as int);
        let lq = spec_index(pre.spec_local_pos(q));
        if sq == sidx {
            if lq == li {
                lemma_cell_injective(minv, total, q, pos);
                assert(false);
            } else {
                assert(0 <= lq < 4096 && 0 <= li < 4096);
                assert(lq as u16 != li as u16);
            }
        }
    }
}

/// Block-entity consistency is preserved by a successful write: the
/// written position either lost its entry or gained one that matches the
/// block-entity registry for its new block, and every other entry still
/// describes an unchanged cell.
proof fn lemma_entities_wf_after_set(
    pre: &Chunk,
    post: &Chunk,
    pos: Vec3i,
    blocks_reg: Registry<()>,
    be_reg: Registry<u32>,
)
    requires
        pre.entities_wf(blocks_reg, be_reg),
        0 <= pos.x < 16,
        0 <= pos.z < 16,
        pre.spec_y_in_range(pos.y as int),
        post.min_view() == pre.min_view(),
        post.max_view() == pre.max_view(),
        post.sections_view().len() == pre.sections_view().len(),
        forall|q: Vec3i|
            pre.spec_pos_in_chunk(q) && q != pos ==> post.spec_block_id_at(q)
                == pre.spec_block_id_at(q),
        post.be_view() == pre.be_view().remove(spec_encode_pos(pos)) || (exists|t: u32|
            {
                &&& #[trigger] post.be_view() == pre.be_view().insert(spec_encode_pos(pos), t)
                &&& (post.spec_block_id_at(pos) as int) < blocks_reg@.len()
                &&& be_reg.spec_get(blocks_reg@[post.spec_block_id_at(pos) as int].0) == Some(t)
            }),
    ensures
        post.entities_wf(blocks_reg, be_reg),
{
    let kpos = spec_encode_pos(pos);
    lemma_encode_decode(pos);
    assert forall|k: u64| #[trigger] post.be_view().contains_key(k) implies {
        let p = spec_decode_pos(k);
        &&& k < 0x100_0000_0000u64
        &&& post.spec_pos_in_chunk(p)
        &&& (post.spec_block_id_at(p) as int) < blocks_reg@.len()
        &&& be_reg.spec_get(blocks_reg@[post.spec_block_id_at(p) as int].0) == Some(
            post.be_view()[k],
        )
    } by {
        if k == kpos {
            assert(!(post.be_view() == pre.be_view().remove(kpos)));
            assert(spec_decode_pos(k) == pos);
        } else {
            assert(pre.be_view().contains_key(k));
            assert(post.be_view()[k] == pre.be_view()[k]);
            let p = spec_decode_pos(k);
            lemma_decode_encode(k);
            assert(p != pos) by {
                if p == pos {
                    assert(k == spec_encode_pos(pos));
                }
            }
            assert(pre.spec_pos_in_chunk(p));
            assert(post.spec_block_id_at(p) == pre.spec_block_id_at(p));
        }
    }
}

/// Distinct in-range positions address distinct cells: same section index
/// and same flat local index force the same position.
pub proof fn lemma_cell_injective(min: int, total: int, q: Vec3i, p: Vec3i)
    requires
        0 <= q.x < 16,
        0 <= q.z < 16,
        0 <= q.y - min * 16 < total * 16,
        0 <= p.x < 16,
        0 <= p.z < 16,
        0 <= p.y - min * 16 < total * 16,
        (q.y - min * 16) / 16 == (p.y - min * 16) / 16,
        ((q.y - min * 16) % 16) * 256 + q.z * 16 + q.x == ((p.y - min * 16) % 16) * 256 + p.z * 16
            + p.x,
    ensures
        q == p,
{
    lemma_chunk_pos_math(min, total, q);
    lemma_chunk_pos_math(min, total, p);
    let lq = (q.y - min * 16) % 16;
    let lp = (p.y - min * 16) % 16;
    assert(lq == lp && q.z == p.z && q.x == p.x) by (nonlinear_arith)
        requires
            0 <= q.x < 16,
            0 <= q.z < 16,
            0 <= lq < 16,
            0 <= p.x < 16,
            0 <= p.z < 16,
            0 <= lp < 16,
            lq * 256 + q.z * 16 + q.x == lp * 256 + p.z * 16 + p.x,
    ;
}

/// The index arithmetic behind a position lookup: the section index is in
/// range and the local coordinates address a cell of that section.
pub proof fn lemma_chunk_pos_math(min: int, total: int, q: Vec3i)
    requires
        0 <= q.x < 16,
        0 <= q.z < 16,
        0 <= q.y - min * 16 < total * 16,
    ensures
        0 <= (q.y - min * 16) / 16 < total,
        0 <= (q.y - min * 16) % 16 < 16,
        (q.y - min * 16) == ((q.y - min * 16) / 16) * 16 + (q.y - min * 16) % 16,
        0 <= ((q.y - min * 16) % 16) * 256 + q.z * 16 + q.x < 4096,
{
    let off = q.y - min * 16;
    assert(0 <= off / 16 < total && 0 <= off % 16 < 16 && off == (off / 16) * 16 + off % 16)
        by (nonlinear_arith)
        requires
            0 <= off < total * 16,
    ;
}

} // verus!
