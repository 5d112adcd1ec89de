//! A chunk section: a 16x16x16 voxel volume storing one global block-state
//! id per position, a running count of non-air positions, and a per-position
//! custom-data map. The section exports to the wire as a direct-format
//! paletted container: 4096 ids bit-packed at a fixed width of 15 bits,
//! four entries to a 64-bit word.
use std::collections::HashMap;

use vstd::prelude::*;

use crate::actor::{ActorError, ActorResult};
use crate::blocks::{spec_has_block_id, BlockState, BLOCK_ID_LIMIT};
use crate::registry::Registry;
use crate::values::UVec3;

verus! {

broadcast use vstd::std_specs::hash::group_hash_axioms;

/// Positions in a section.
pub const SECTION_VOLUME: usize = 4096;

/// 64-bit words in the packed wire form: four 15-bit entries per word.
pub const SECTION_WORDS: usize = 1024;

/// The number of non-zero entries of a block array.
pub open spec fn count_nonzero(s: Seq<u16>) -> int
    decreases s.len(),
{
    if s.len() == 0 {
        0
    } else {
        count_nonzero(s.drop_last()) + if s.last() == 0 {
            0int
        } else {
            1int
        }
    }
}

pub proof fn lemma_count_nonzero_bounds(s: Seq<u16>)
    ensures
        0 <= count_nonzero(s) <= s.len(),
    decreases s.len(),
{
    if s.len() > 0 {
        lemma_count_nonzero_bounds(s.drop_last());
    }
}

pub proof fn lemma_count_nonzero_push(s: Seq<u16>, v: u16)
    ensures
        count_nonzero(s.push(v)) == count_nonzero(s) + if v == 0 {
            0int
        } else {
            1int
        },
{
    assert(s.push(v).drop_last() =~= s);
}

pub proof fn lemma_count_nonzero_update(s: Seq<u16>, i: int, v: u16)
    requires
        0 <= i < s.len(),
    ensures
        count_nonzero(s.update(i, v)) == count_nonzero(s) - (if s[i] == 0 {
            0int
        } else {
            1int
        }) + (if v == 0 {
            0int
        } else {
            1int
        }),
    decreases s.len(),
{
    if i == s.len() - 1 {
        assert(s.update(i, v).drop_last() =~= s.drop_last());
    } else {
        assert(s.update(i, v).drop_last() =~= s.drop_last().update(i, v));
        lemma_count_nonzero_update(s.drop_last(), i, v);
    }
}

/// Whether a local position addresses a cell of the section.
pub open spec fn spec_in_range(pos: UVec3) -> bool {
    pos.x < 16 && pos.y < 16 && pos.z < 16
}

/// The flat-array index order: `y * 256 + z * 16 + x`.
pub open spec fn spec_index(pos: UVec3) -> int {
    pos.y * 256 + pos.z * 16 + pos.x
}

pub struct ChunkSection {
    block_count: i16,
    blocks: Vec<u16>,
    block_meta: HashMap<u16, Vec<u8>>,
}

impl ChunkSection {
    /// The stored block ids, one per position.
    pub closed spec fn blocks_view(&self) -> Seq<u16> {
        self.blocks@
    }

    /// The per-position custom-data payloads, keyed by flat index.
    pub closed spec fn meta_view(&self) -> Map<u16, Seq<u8>> {
        self.block_meta@.map_values(|v: Vec<u8>| v@)
    }

    /// The running non-air count.
    pub closed spec fn count_view(&self) -> int {
        self.block_count as int
    }

    /// Well-formedness: the array covers the whole volume, every id fits
    /// the storage bit width, and the running count equals the number of
    /// non-zero entries of the block array.
    pub open spec fn wf(&self) -> bool {
        &&& self.blocks_view().len() == SECTION_VOLUME
        &&& forall|i: int|
            0 <= i < self.blocks_view().len() ==> self.blocks_view()[i] < BLOCK_ID_LIMIT
        &&& self.count_view() == count_nonzero(self.blocks_view())
    }

    pub fn index_from_pos(pos: UVec3) -> (r: usize)
        requires
            spec_in_range(pos),
        ensures
            r == spec_index(pos),
            r < SECTION_VOLUME,
    {
        pos.y * 256 + pos.z * 16 + pos.x
    }

    /// An all-air section: every id zero, count zero, no metadata.
    pub fn empty() -> (r: ChunkSection)
        ensures
            r.wf(),
            r.blocks_view().len() == SECTION_VOLUME,
            forall|i: int| 0 <= i < r.blocks_view().len() ==> r.blocks_view()[i] == 0,
            r.count_view() == 0,
            r.meta_view() == Map::<u16, Seq<u8>>::empty(),
    {
        let mut blocks: Vec<u16> = Vec::new();
        let mut i: usize = 0;
        while i < SECTION_VOLUME
            invariant
                i <= SECTION_VOLUME,
                blocks@.len() == i,
                forall|j: int| 0 <= j < i ==> blocks@[j] == 0,
                count_nonzero(blocks@) == 0,
            decreases SECTION_VOLUME - i,
        {
            proof {
                lemma_count_nonzero_push(blocks@, 0u16);
            }
            blocks.push(0);
            i = i + 1;
        }
        let r = ChunkSection { block_count: 0, blocks, block_meta: HashMap::new() };
        proof {
            assert(r.meta_view() =~= Map::<u16, Seq<u8>>::empty());
        }
        r
    }

    pub fn non_air_count(&self) -> (r: i16)
        ensures
            r == self.count_view(),
    {
        self.block_count
    }

    /// Write a block state at a local position. The position must address
    /// a cell of the section and the state's name must resolve to a
    /// storable protocol id; otherwise the call is rejected and the
    /// section is unchanged. On success the id is written, the non-air
    /// count follows the zero/non-zero transition, and a `CUSTOM_DATA`
    /// payload, when the state carries one, is stored in the metadata map
    /// — a state without one leaves the map untouched.
    pub fn set_block_at(&mut self, pos: UVec3, block: &BlockState, blocks_reg: &Registry<()>) -> (r:
        ActorResult<()>)
        requires
            old(self).wf(),
            blocks_reg.wf(),
        ensures
            final(self).wf(),
            match r {
                Ok(()) => {
                    &&& spec_in_range(pos)
                    &&& spec_has_block_id(blocks_reg, block.name_view())
                    &&& {
                        let id = blocks_reg.spec_index_of(block.name_view());
                        &&& 0 <= id < blocks_reg@.len()
                        &&& id < BLOCK_ID_LIMIT
                        &&& blocks_reg@[id].0 == block.name_view()
                        &&& final(self).blocks_view() == old(self).blocks_view().update(
                            spec_index(pos),
                            id as u16,
                        )
                    }
                    &&& final(self).meta_view() == match block.data_view() {
                        Some(d) => old(self).meta_view().insert(spec_index(pos) as u16, d),
                        None => old(self).meta_view(),
                    }
                },
                Err(ActorError::IndexOutOfBounds) => !spec_in_range(pos) && *final(self) == *old(
                    self,
                ),
                Err(ActorError::BadRequest) => {
                    &&& spec_in_range(pos)
                    &&& *final(self) == *old(self)
                    &&& !spec_has_block_id(blocks_reg, block.name_view())
                },
                Err(_) => false,
            },
    {
        if !(pos.x < 16 && pos.y < 16 && pos.z < 16) {
            return Err(ActorError::IndexOutOfBounds);
        }
        let idx = Self::index_from_pos(pos);
        let id: u32 = match block.protocol_id(blocks_reg) {
            Some(id) => id,
            None => {
                return Err(ActorError::BadRequest);
            }
        };
        let new_id: u16 = id as u16;
        let old_id: u16 = self.blocks[idx];
        proof {
            lemma_count_nonzero_update(self.blocks_view(), idx as int, new_id);
            lemma_count_nonzero_bounds(self.blocks_view().update(idx as int, new_id));
            lemma_count_nonzero_bounds(self.blocks_view());
        }
        if old_id == 0 && new_id != 0 {
            self.block_count = self.block_count + 1;
        } else if old_id != 0 && new_id == 0 {
            self.block_count = self.block_count - 1;
        }
        self.blocks[idx] = new_id;
        match block.custom_data() {
            Some(d) => {
                let ghost prior = self.meta_view();
                self.block_meta.insert(idx as u16, d.clone());
                proof {
                    assert(self.meta_view() =~= prior.insert(idx as u16, d@));
                }
            }
            None => {}
        }
        Ok(())
    }

    /// Write a raw block-state id at a local position. Rejected when the
    /// position is out of range or the id does not fit the storage bit
    /// width; the metadata map is never touched.
    pub fn set_block_at_by_id(&mut self, pos: UVec3, new_block: u32) -> (r: ActorResult<()>)
        requires
            old(self).wf(),
        ensures
            final(self).wf(),
            match r {
                Ok(()) => {
                    &&& spec_in_range(pos)
                    &&& new_block < BLOCK_ID_LIMIT
                    &&& final(self).blocks_view() == old(self).blocks_view().update(
                        spec_index(pos),
                        new_block as u16,
                    )
                    &&& final(self).meta_view() == old(self).meta_view()
                },
                Err(ActorError::IndexOutOfBounds) => !spec_in_range(pos) && *final(self) == *old(
                    self,
                ),
                Err(ActorError::BadRequest) => spec_in_range(pos) && new_block >= BLOCK_ID_LIMIT
                    && *final(self) == *old(self),
                Err(_) => false,
            },
    {
        if !(pos.x < 16 && pos.y < 16 && pos.z < 16) {
            return Err(ActorError::IndexOutOfBounds);
        }
        if new_block >= BLOCK_ID_LIMIT {
            return Err(ActorError::BadRequest);
        }
        let idx = Self::index_from_pos(pos);
        let new_id: u16 = new_block as u16;
        let old_id: u16 = self.blocks[idx];
        proof {
            lemma_count_nonzero_update(self.blocks_view(), idx as int, new_id);
            lemma_count_nonzero_bounds(self.blocks_view().update(idx as int, new_id));
            lemma_count_nonzero_bounds(self.blocks_view());
        }
        if old_id == 0 && new_id != 0 {
            self.block_count = self.block_count + 1;
        } else if old_id != 0 && new_id == 0 {
            self.block_count = self.block_count - 1;
        }
        self.blocks[idx] = new_id;
        Ok(())
    }

    /// Read the block state at a local position: the state named by the
    /// stored id's registry entry, with the position's custom data
    /// re-attached when present.
    pub fn get_block_at(&self, pos: UVec3, blocks_reg: &Registry<()>) -> (r: ActorResult<
        BlockState,
    >)
        requires
            self.wf(),
            blocks_reg.wf(),
        ensures
            match r {
                Ok(b) => {
                    &&& spec_in_range(pos)
                    &&& {
                        let id = self.blocks_view()[spec_index(pos)] as int;
                        &&& id < blocks_reg@.len()
                        &&& b.name_view() == blocks_reg@[id].0
                        &&& b.data_view() == (if self.meta_view().contains_key(
                            spec_index(pos) as u16,
                        ) {
                            Some(self.meta_view()[spec_index(pos) as u16])
                        } else {
                            None
                        })
                    }
                },
                Err(ActorError::IndexOutOfBounds) => !spec_in_range(pos),
                Err(ActorError::BadRequest) => spec_in_range(pos) && self.blocks_view()[spec_index(
                    pos,
                )] as int >= blocks_reg@.len(),
                Err(_) => false,
            },
    {
        if !(pos.x < 16 && pos.y < 16 && pos.z < 16) {
            return Err(ActorError::IndexOutOfBounds);
        }
        let idx = Self::index_from_pos(pos);
        let id = self.blocks[idx];
        match BlockState::from_protocol_id(id as u32, blocks_reg) {
            Some(b) => {
                match self.block_meta.get(&(idx as u16)) {
                    Some(d) => Ok(b.with_custom_data(d.clone())),
                    None => Ok(b),
                }
            }
            None => Err(ActorError::BadRequest),
        }
    }
}

impl Clone for ChunkSection {
    fn clone(&self) -> (r: ChunkSection)
        ensures
            r.blocks_view() == self.blocks_view(),
            r.meta_view() == self.meta_view(),
            r.count_view() == self.count_view(),
    {
        let blocks = self.blocks.clone();
        proof {
            assert(blocks@ =~= self.blocks@);
        }
        ChunkSection {
            block_count: self.block_count,
            blocks,
            block_meta: self.block_meta.clone(),
        }
    }
}

/// The paletted-container wire form of a section: the block ids in the
/// direct format (no per-section palette), bit-packed four entries to a
/// word, plus a single-valued biome container and the non-air count.
pub struct WireSection {
    pub block_count: i16,
    /// Bits per block entry: always the fixed direct width.
    pub bits_per_entry: u8,
    /// The packed block data, `SECTION_WORDS` words.
    pub data: Vec<u64>,
    /// Bits per biome entry: zero, the single-valued format.
    pub biome_bits: u8,
    /// The registry entry of the single biome.
    pub biome: u32,
}

/// The block id a decoder reads at entry `i` of the packed data.
pub open spec fn wire_entry(data: Seq<u64>, i: int) -> u16 {
    ((data[i / 4] >> ((15 * (i % 4)) as u64)) & 0x7fff) as u16
}

proof fn lemma_pack4(e0: u64, e1: u64, e2: u64, e3: u64, word: u64)
    requires
        e0 < 0x8000,
        e1 < 0x8000,
        e2 < 0x8000,
        e3 < 0x8000,
        word == e0 | (e1 << 15u64) | (e2 << 30u64) | (e3 << 45u64),
    ensures
        (word >> 0u64) & 0x7fff == e0,
        (word >> 15u64) & 0x7fff == e1,
        (word >> 30u64) & 0x7fff == e2,
        (word >> 45u64) & 0x7fff == e3,
{
    assert((word >> 0u64) & 0x7fff == e0 && (word >> 15u64) & 0x7fff == e1 && (word >> 30u64)
        & 0x7fff == e2 && (word >> 45u64) & 0x7fff == e3) by (bit_vector)
        requires
            e0 < 0x8000,
            e1 < 0x8000,
            e2 < 0x8000,
            e3 < 0x8000,
            word == e0 | (e1 << 15u64) | (e2 << 30u64) | (e3 << 45u64),
    ;
}

impl WireSection {
    /// Decode one entry of the packed data.
    pub fn entry(&self, i: usize) -> (r: u16)
        requires
            i < SECTION_VOLUME,
            self.data@.len() == SECTION_WORDS,
        ensures
            r == wire_entry(self.data@, i as int),
    {
        ((self.data[i / 4] >> ((15 * (i % 4)) as u64)) & 0x7fff) as u16
    }
}

impl ChunkSection {
    /// Export to the wire form. The packed data decodes back to exactly
    /// the stored block array — same ids at the same indices — and the
    /// non-air count is carried over unchanged, so a decoder reconstructs
    /// the section's contents faithfully.
    pub fn to_wire(&self, biome: u32) -> (r: WireSection)
        requires
            self.wf(),
        ensures
            r.block_count == self.count_view(),
            r.bits_per_entry == 15,
            r.biome_bits == 0,
            r.biome == biome,
            r.data@.len() == SECTION_WORDS,
            forall|i: int|
                0 <= i < SECTION_VOLUME ==> wire_entry(r.data@, i) == self.blocks_view()[i],
    {
        let mut data: Vec<u64> = Vec::new();
        let mut w: usize = 0;
        while w < SECTION_WORDS
            invariant
                self.wf(),
                w <= SECTION_WORDS,
                data@.len() == w,
                forall|k: int| 0 <= k < 4 * w ==> wire_entry(data@, k) == self.blocks_view()[k],
            decreases SECTION_WORDS - w,
        {
            let e0 = self.blocks[4 * w] as u64;
            let e1 = self.blocks[4 * w + 1] as u64;
            let e2 = self.blocks[4 * w + 2] as u64;
            let e3 = self.blocks[4 * w + 3] as u64;
            let word = e0 | (e1 << 15u64) | (e2 << 30u64) | (e3 << 45u64);
            proof {
                lemma_pack4(e0, e1, e2, e3, word);
            }
            let ghost prior = data@;
            data.push(word);
            proof {
                assert forall|k: int| 0 <= k < 4 * (w + 1) implies wire_entry(data@, k)
                    == self.blocks_view()[k] by {
                    if k < 4 * w {
                        assert(k / 4 < w);
                        assert(data@[k / 4] == prior[k / 4]);
                        assert(wire_entry(data@, k) == wire_entry(prior, k));
                    } else {
                        assert(k / 4 == w && k % 4 == k - 4 * w);
                        assert(data@[k / 4] == word);
                    }
                }
            }
            w = w + 1;
        }
        WireSection {
            block_count: self.block_count,
            bits_per_entry: 15,
            data,
            biome_bits: 0,
            biome,
        }
    }
}

/// Round-trip law: writing a block state and reading the same position
/// back yields a state with the same name and the same custom data. The
/// one caveat: a state that carries no custom data does not clear stale
/// metadata left at the position by an earlier write, so the law asks that
/// the state carry data or the position carry none.
pub fn set_then_get(
    section: &mut ChunkSection,
    pos: UVec3,
    block: &BlockState,
    blocks_reg: &Registry<()>,
) -> (r: BlockState)
    requires
        old(section).wf(),
        blocks_reg.wf(),
        spec_in_range(pos),
        spec_has_block_id(blocks_reg, block.name_view()),
        block.data_view() is Some || !old(section).meta_view().contains_key(spec_index(pos) as u16),
    ensures
        final(section).wf(),
        r.name_view() == block.name_view(),
        r.data_view() == block.data_view(),
{
    let set_result = section.set_block_at(pos, block, blocks_reg);
    proof {
        assert(set_result is Ok);
    }
    let got = section.get_block_at(pos, blocks_reg);
    proof {
        assert(got is Ok);
    }
    match got {
        Ok(b) => b,
        Err(_) => {
            proof {
                assert(false);
            }
            BlockState::new(crate::values::Id::new(String::new(), String::new()))
        }
    }
}

} // verus!
