//! Block states. A block state is a namespaced block name plus an optional
//! custom-data payload (the `CUSTOM_DATA` component). Its protocol id is
//! its entry index in the server's block registry.
use vstd::prelude::*;

use crate::registry::Registry;
use crate::values::Id;

verus! {

/// One more than the largest storable block id: ids are stored at a fixed
/// direct bit width of 15, wide enough for the whole global palette.
pub const BLOCK_ID_LIMIT: u32 = 32768;

/// Whether a block name resolves to a storable protocol id: it is
/// registered and its entry index fits the storage bit width. Under a
/// well-formed registry the id is `blocks.spec_index_of(name)`.
pub open spec fn spec_has_block_id(blocks: &Registry<()>, name: (Seq<char>, Seq<char>)) -> bool {
    exists|i: int| 0 <= i < blocks@.len() && blocks@[i].0 == name && i < BLOCK_ID_LIMIT
}

pub struct BlockState {
    name: Id,
    custom_data: Option<Vec<u8>>,
}

impl BlockState {
    pub closed spec fn name_view(&self) -> (Seq<char>, Seq<char>) {
        self.name@
    }

    pub closed spec fn data_view(&self) -> Option<Seq<u8>> {
        match self.custom_data {
            Some(d) => Some(d@),
            None => None,
        }
    }

    pub fn new(name: Id) -> (r: BlockState)
        ensures
            r.name_view() == name@,
            r.data_view() is None,
    {
        BlockState { name, custom_data: None }
    }

    pub fn name(&self) -> (r: &Id)
        ensures
            r@ == self.name_view(),
    {
        &self.name
    }

    pub fn custom_data(&self) -> (r: Option<&Vec<u8>>)
        ensures
            match r {
                Some(d) => self.data_view() == Some(d@),
                None => self.data_view() is None,
            },
    {
        match &self.custom_data {
            Some(d) => Some(d),
            None => None,
        }
    }

    /// Attach a `CUSTOM_DATA` payload.
    pub fn with_custom_data(self, data: Vec<u8>) -> (r: BlockState)
        ensures
            r.name_view() == self.name_view(),
            r.data_view() == Some(data@),
    {
        BlockState { name: self.name, custom_data: Some(data) }
    }

    /// The global protocol id of this block state: its entry index in the
    /// block registry, when the name is registered and the index fits the
    /// storage bit width.
    pub fn protocol_id(&self, blocks: &Registry<()>) -> (r: Option<u32>)
        requires
            blocks.wf(),
        ensures
            match r {
                Some(id) => {
                    &&& spec_has_block_id(blocks, self.name_view())
                    &&& id == blocks.spec_index_of(self.name_view())
                    &&& id < BLOCK_ID_LIMIT
                    &&& (id as int) < blocks@.len()
                    &&& blocks@[id as int].0 == self.name_view()
                },
                None => !spec_has_block_id(blocks, self.name_view()),
            },
    {
        match blocks.get_entry(&self.name) {
            Some(i) => {
                if i < BLOCK_ID_LIMIT as usize {
                    proof {
                        crate::registry::lemma_registry_round_trip(*blocks, i as int);
                        assert(blocks.spec_index_of(self.name_view()) == i as int);
                    }
                    Some(i as u32)
                } else {
                    proof {
                        assert forall|j: int|
                            0 <= j < blocks@.len() && blocks@[j].0
                                == self.name_view() implies j >= BLOCK_ID_LIMIT by {
                            crate::registry::lemma_registry_round_trip(*blocks, i as int);
                        }
                    }
                    None
                }
            }
            None => None,
        }
    }

    /// Whether the name resolves to a storable protocol id.
    pub fn id_is_valid(&self, blocks: &Registry<()>) -> (r: bool)
        requires
            blocks.wf(),
        ensures
            r == spec_has_block_id(blocks, self.name_view()),
    {
        match self.protocol_id(blocks) {
            Some(_) => true,
            None => false,
        }
    }

    /// Rebuild a block state from a stored protocol id: the name of the
    /// registry entry at that index, with no components attached.
    pub fn from_protocol_id(id: u32, blocks: &Registry<()>) -> (r: Option<BlockState>)
        ensures
            match r {
                Some(b) => (id as int) < blocks@.len() && b.name_view() == blocks@[id as int].0
                    && b.data_view() is None,
                None => id as int >= blocks@.len(),
            },
    {
        match blocks.key_of(id as usize) {
            Some(name) => Some(BlockState { name: name.clone(), custom_data: None }),
            None => None,
        }
    }
}

impl Clone for BlockState {
    fn clone(&self) -> (r: BlockState)
        ensures
            r.name_view() == self.name_view(),
            r.data_view() == self.data_view(),
    {
        BlockState {
            name: self.name.clone(),
            custom_data: match &self.custom_data {
                Some(d) => Some(d.clone()),
                None => None,
            },
        }
    }
}

} // verus!
