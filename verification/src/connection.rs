//! The player connection state machine: the protocol stage, the
//! connection-local player state, and the play-stage packet handler — a
//! pure decision function from state and packet to state and effects. The
//! socket, the mailbox thread and the packet codec live outside the
//! verified core and perform the effects this module returns.
use vstd::prelude::*;

use crate::actor::{ActorError, ActorResult};
use crate::item::{ItemCountComponentType, ItemModelComponentType, ItemStack};
use crate::registries::RegistryContainer;
use crate::values::{floor_div_16, Id, Vec2f, Vec2i, Vec3d, Vec3i};

verus! {

use crate::chunkload::{contains_chunk, lemma_prune_members, spec_candidate, spec_enum_before, spec_in_window, spec_prune, spec_rank};

/// The finite-state position of a connection within the wire protocol.
#[derive(Clone, Copy, PartialEq, Eq, Structural, Debug)]
pub enum Stage {
    Handshake,
    Status,
    Login,
    Configuration,
    Play,
}

/// The player's game mode.
#[derive(Clone, Copy, PartialEq, Eq, Structural, Debug)]
pub enum Gamemode {
    Survival,
    Creative,
    Adventure,
    Spectator,
}

/// The digging status of a player-action packet.
#[derive(Clone, Copy, PartialEq, Eq, Structural, Debug)]
pub enum PlayerStatus {
    StartedDigging,
    CancelledDigging,
    FinishedDigging,
    DropItemStack,
    DropItem,
    FinishUsingItem,
    SwapItems,
}

/// The face of a block a use-item-on packet targets.
#[derive(Clone, Copy, PartialEq, Eq, Structural, Debug)]
pub enum BlockFace {
    Down,
    Up,
    North,
    South,
    East,
    West,
}

/// An incoming play-stage packet, as plain values. The wire codec decodes
/// frames into this shape; move packets carry both the exact position bits
/// and the floor block coordinates the codec derived from them.
pub enum PlayPacket {
    ChatCommand { command: String },
    PlayerAction { status: PlayerStatus, position: Vec3i },
    AcceptTeleportation { teleport_id: i32 },
    MovePlayerPos { position: Vec3d, block_position: Vec3i },
    MovePlayerPosRot { position: Vec3d, block_position: Vec3i, direction: Vec2f },
    MovePlayerRot { direction: Vec2f },
    ClientInformation { view_distance: u8 },
    PlayerInput { flags: u8 },
    ClientTickEnd,
    PingRequest { id: u64 },
    ChunkBatchReceived,
    SetCreativeModeSlot { slot: i16, item: ItemStack },
    SetCarriedItem { slot: i16 },
    UseItem { main_hand: bool },
    UseItemOn { target: Vec3i, face: BlockFace },
    Chat { message: String },
    ContainerClick { cursor: ItemStack, changed_slots: Vec<(i16, ItemStack)> },
    ContainerClose,
    Interact { entity_id: i32, attack: bool },
    Swing { main_hand: bool },
    Unknown,
}

/// What the handler asks the embedding runtime to do: raise an event,
/// write a packet, message the dimension, or run a follow-up flow.
#[allow(inconsistent_fields)]
pub enum ConnectionEffect {
    EmitCommand { player: u128, command: String },
    EmitStartBreak { player: u128, position: Vec3i },
    EmitBreak { player: u128, position: Vec3i },
    EmitDrop { player: u128, item: ItemStack },
    EmitSwapHands { player: u128 },
    EmitMove { player: u128, new_position: Vec3d, new_direction: Vec2f },
    EmitHeldSlot { player: u128, slot: i16 },
    EmitPlace { player: u128, position: Vec3i, kind: Id },
    EmitRightClick { player: u128 },
    EmitChat { player: u128, message: String },
    /// Set the block at a world position to air on the current dimension.
    SetBlockAir { position: Vec3i },
    /// Set the block at a world position to the block named by an item
    /// kind on the current dimension.
    SetBlock { position: Vec3i, kind: Id },
    WritePong { id: u64 },
    /// Recompute chunk streaming.
    SendChunks,
    /// Broadcast this player's position to the dimension's other players.
    UpdateSelfEntity,
    /// Run the first-join flow: raise the join event and wait for the
    /// handler to choose a dimension.
    BeginJoinFlow,
    /// Resolve the attacked entity and raise the matching attack event.
    AttackInteraction { player: u128, entity_id: i32 },
    /// Broadcast a swing animation to the dimension's other players.
    BroadcastSwing { player: u128, entity_id: i32, main_hand: bool },
    WriteDisconnect,
    WriteGameEventWaitForChunks,
    /// Send this player's info entry to every connection.
    BroadcastOwnPlayerInfo { player: u128 },
    /// Send every connection's info entry back to this connection.
    SendAllPlayerInfo,
    /// Send every entity of the joined dimension to this connection.
    SendAllEntities,
    /// Insert this player's entity into the joined dimension.
    SpawnPlayerEntity { player: u128, entity_id: i32 },
}

/// One legal step of the protocol stage machine.
pub open spec fn spec_stage_step(from: Stage, to: Stage) -> bool {
    match (from, to) {
        (Stage::Handshake, Stage::Status) => true,
        (Stage::Handshake, Stage::Login) => true,
        (Stage::Login, Stage::Configuration) => true,
        (Stage::Configuration, Stage::Play) => true,
        _ => false,
    }
}

/// How many slots a player inventory has.
pub const INVENTORY_SLOTS: usize = 46;

pub struct ConnectionData {
    pub(crate) stage: Stage,
    pub(crate) uuid: Option<u128>,
    pub(crate) username: Option<String>,
    pub(crate) dimension: Option<Id>,
    pub(crate) last_position: Vec3d,
    pub(crate) last_block_position: Vec3i,
    pub(crate) last_chunk_position: Vec2i,
    pub(crate) direction: Vec2f,
    pub(crate) loaded_chunks: Vec<Vec2i>,
    pub(crate) render_distance: i32,
    pub(crate) entity_id: i32,
    pub(crate) gamemode: Gamemode,
    pub(crate) inventory: Vec<ItemStack>,
    pub(crate) cursor_item: ItemStack,
    pub(crate) screen: Option<(usize, Vec<ItemStack>)>,
    pub(crate) held_slot: i16,
    pub(crate) teleport_sync_sent: i32,
    pub(crate) teleport_sync_received: i32,
    pub(crate) input_flags: u8,
}

impl ConnectionData {
    pub closed spec fn stage_view(&self) -> Stage {
        self.stage
    }

    pub closed spec fn uuid_view(&self) -> Option<u128> {
        self.uuid
    }

    pub closed spec fn username_view(&self) -> Option<String> {
        self.username
    }

    pub closed spec fn dimension_view(&self) -> Option<Id> {
        self.dimension
    }

    pub closed spec fn position_view(&self) -> Vec3d {
        self.last_position
    }

    pub closed spec fn block_position_view(&self) -> Vec3i {
        self.last_block_position
    }

    pub closed spec fn chunk_position_view(&self) -> Vec2i {
        self.last_chunk_position
    }

    pub closed spec fn direction_view(&self) -> Vec2f {
        self.direction
    }

    pub closed spec fn loaded_chunks_view(&self) -> Seq<Vec2i> {
        self.loaded_chunks@
    }

    pub closed spec fn render_distance_view(&self) -> int {
        self.render_distance as int
    }

    pub closed spec fn entity_id_view(&self) -> i32 {
        self.entity_id
    }

    pub closed spec fn gamemode_view(&self) -> Gamemode {
        self.gamemode
    }

    pub closed spec fn inventory_view(&self) -> Seq<ItemStack> {
        self.inventory@
    }

    pub closed spec fn cursor_view(&self) -> ItemStack {
        self.cursor_item
    }

    pub closed spec fn screen_view(&self) -> Option<(int, Seq<ItemStack>)> {
        match self.screen {
            Some((size, inv)) => Some((size as int, inv@)),
            None => None,
        }
    }

    pub closed spec fn held_slot_view(&self) -> i16 {
        self.held_slot
    }

    pub closed spec fn sent_view(&self) -> i32 {
        self.teleport_sync_sent
    }

    pub closed spec fn received_view(&self) -> i32 {
        self.teleport_sync_received
    }

    pub closed spec fn input_flags_view(&self) -> u8 {
        self.input_flags
    }

    /// Well-formedness: the inventory covers every slot, the render
    /// distance is a protocol byte, and the client-acknowledged teleport
    /// id never exceeds the last-sent id.
    pub open spec fn wf(&self) -> bool {
        &&& self.inventory_view().len() == INVENTORY_SLOTS
        &&& 0 <= self.render_distance_view() <= 255
        &&& self.received_view() <= self.sent_view()
    }
}

/// The fields no play-stage packet touches.
pub open spec fn same_identity(pre: &ConnectionData, post: &ConnectionData) -> bool {
    &&& post.stage_view() == pre.stage_view()
    &&& post.uuid_view() == pre.uuid_view()
    &&& post.username_view() == pre.username_view()
    &&& post.dimension_view() == pre.dimension_view()
    &&& post.entity_id_view() == pre.entity_id_view()
    &&& post.gamemode_view() == pre.gamemode_view()
    &&& post.loaded_chunks_view() == pre.loaded_chunks_view()
    &&& post.chunk_position_view() == pre.chunk_position_view()
}

/// Position, block position and direction unchanged.
pub open spec fn same_motion(pre: &ConnectionData, post: &ConnectionData) -> bool {
    &&& post.position_view() == pre.position_view()
    &&& post.block_position_view() == pre.block_position_view()
    &&& post.direction_view() == pre.direction_view()
}

/// Teleport-sync counters unchanged.
pub open spec fn same_sync(pre: &ConnectionData, post: &ConnectionData) -> bool {
    &&& post.sent_view() == pre.sent_view()
    &&& post.received_view() == pre.received_view()
}

/// Inventory, cursor, screen and held slot unchanged.
pub open spec fn same_inventory(pre: &ConnectionData, post: &ConnectionData) -> bool {
    &&& post.inventory_view() == pre.inventory_view()
    &&& post.cursor_view() == pre.cursor_view()
    &&& post.screen_view() == pre.screen_view()
    &&& post.held_slot_view() == pre.held_slot_view()
}

/// Render distance and input flags unchanged.
pub open spec fn same_misc(pre: &ConnectionData, post: &ConnectionData) -> bool {
    &&& post.render_distance_view() == pre.render_distance_view()
    &&& post.input_flags_view() == pre.input_flags_view()
}

/// Nothing but the effect list moved.
pub open spec fn same_state(pre: &ConnectionData, post: &ConnectionData) -> bool {
    &&& same_identity(pre, post)
    &&& same_motion(pre, post)
    &&& same_sync(pre, post)
    &&& same_inventory(pre, post)
    &&& same_misc(pre, post)
}

/// Whether a move packet is dropped: the client has not yet acknowledged
/// the last teleport the server sent.
pub open spec fn spec_mid_teleport(c: &ConnectionData) -> bool {
    c.sent_view() > c.received_view()
}

/// The new inventories after replaying one declared slot delta through the
/// screen's slot grouping: container slots first, then the player's upper
/// 27, then the hotbar. `None` when the slot index fits no group.
pub open spec fn spec_apply_click(
    inv: Seq<ItemStack>,
    cinv: Seq<ItemStack>,
    csize: int,
    slot: int,
    item: ItemStack,
) -> Option<(Seq<ItemStack>, Seq<ItemStack>)> {
    if 0 <= slot < csize && slot < cinv.len() {
        Some((inv, cinv.update(slot, item)))
    } else if csize <= slot < csize + 27 && 9 + (slot - csize) < inv.len() {
        Some((inv.update(9 + (slot - csize), item), cinv))
    } else if csize + 27 <= slot < csize + 36 && 36 + (slot - csize - 27) < inv.len() {
        Some((inv.update(36 + (slot - csize - 27), item), cinv))
    } else {
        None
    }
}

/// The inventories after replaying a whole click, delta by delta.
pub open spec fn spec_apply_clicks(
    inv: Seq<ItemStack>,
    cinv: Seq<ItemStack>,
    csize: int,
    slots: Seq<(i16, ItemStack)>,
) -> Option<(Seq<ItemStack>, Seq<ItemStack>)>
    decreases slots.len(),
{
    if slots.len() == 0 {
        Some((inv, cinv))
    } else {
        match spec_apply_clicks(inv, cinv, csize, slots.drop_last()) {
            Some((inv2, cinv2)) => spec_apply_click(
                inv2,
                cinv2,
                csize,
                slots.last().0 as int,
                slots.last().1,
            ),
            None => None,
        }
    }
}

/// The inventory after replaying a click with no screen open: each delta
/// lands directly on the player inventory. `None` on an out-of-range slot.
pub open spec fn spec_apply_direct_clicks(inv: Seq<ItemStack>, slots: Seq<(i16, ItemStack)>) -> Option<
    Seq<ItemStack>,
>
    decreases slots.len(),
{
    if slots.len() == 0 {
        Some(inv)
    } else {
        match spec_apply_direct_clicks(inv, slots.drop_last()) {
            Some(inv2) => {
                let slot = slots.last().0 as int;
                if 0 <= slot < inv2.len() {
                    Some(inv2.update(slot, slots.last().1))
                } else {
                    None
                }
            },
            None => None,
        }
    }
}

/// Once a prefix of the deltas fails to apply, the whole click fails.
proof fn lemma_clicks_none_extends(
    inv: Seq<ItemStack>,
    cinv: Seq<ItemStack>,
    csize: int,
    slots: Seq<(i16, ItemStack)>,
    j: int,
)
    requires
        0 <= j <= slots.len(),
        spec_apply_clicks(inv, cinv, csize, slots.take(j)) is None,
    ensures
        spec_apply_clicks(inv, cinv, csize, slots) is None,
    decreases slots.len() - j,
{
    if j < slots.len() {
        assert(slots.take(j + 1).drop_last() =~= slots.take(j));
        lemma_clicks_none_extends(inv, cinv, csize, slots, j + 1);
    } else {
        assert(slots.take(j) =~= slots);
    }
}

/// Once a prefix of the deltas fails to apply directly, the whole click
/// fails.
proof fn lemma_direct_clicks_none_extends(inv: Seq<ItemStack>, slots: Seq<(i16, ItemStack)>, j: int)
    requires
        0 <= j <= slots.len(),
        spec_apply_direct_clicks(inv, slots.take(j)) is None,
    ensures
        spec_apply_direct_clicks(inv, slots) is None,
    decreases slots.len() - j,
{
    if j < slots.len() {
        assert(slots.take(j + 1).drop_last() =~= slots.take(j));
        lemma_direct_clicks_none_extends(inv, slots, j + 1);
    } else {
        assert(slots.take(j) =~= slots);
    }
}

/// A click whose delta at position `i` fails to apply fails as a whole.
proof fn lemma_screen_click_fails(
    inv0: Seq<ItemStack>,
    cinv0: Seq<ItemStack>,
    csize: int,
    slots: Seq<(i16, ItemStack)>,
    i: int,
    inv_now: Seq<ItemStack>,
    cinv_now: Seq<ItemStack>,
)
    requires
        0 <= i < slots.len(),
        spec_apply_clicks(inv0, cinv0, csize, slots.take(i)) == Some((inv_now, cinv_now)),
        spec_apply_click(inv_now, cinv_now, csize, slots[i].0 as int, slots[i].1) is None,
    ensures
        spec_apply_clicks(inv0, cinv0, csize, slots) is None,
{
    assert(slots.take(i + 1).drop_last() =~= slots.take(i));
    assert(slots.take(i + 1).last() == slots[i]);
    lemma_clicks_none_extends(inv0, cinv0, csize, slots, i + 1);
}

/// A direct click whose delta at position `i` is out of range fails as a
/// whole.
proof fn lemma_direct_click_fails(
    inv0: Seq<ItemStack>,
    slots: Seq<(i16, ItemStack)>,
    i: int,
    inv_now: Seq<ItemStack>,
)
    requires
        0 <= i < slots.len(),
        spec_apply_direct_clicks(inv0, slots.take(i)) == Some(inv_now),
        !(0 <= (slots[i].0 as int) < inv_now.len()),
    ensures
        spec_apply_direct_clicks(inv0, slots) is None,
{
    assert(slots.take(i + 1).drop_last() =~= slots.take(i));
    assert(slots.take(i + 1).last() == slots[i]);
    lemma_direct_clicks_none_extends(inv0, slots, i + 1);
}

/// The world offset of a block face.
pub open spec fn spec_face_offset(face: BlockFace) -> Vec3i {
    match face {
        BlockFace::Down => Vec3i { x: 0, y: -1i32, z: 0 },
        BlockFace::Up => Vec3i { x: 0, y: 1, z: 0 },
        BlockFace::North => Vec3i { x: 0, y: 0, z: -1i32 },
        BlockFace::South => Vec3i { x: 0, y: 0, z: 1 },
        BlockFace::West => Vec3i { x: -1i32, y: 0, z: 0 },
        BlockFace::East => Vec3i { x: 1, y: 0, z: 0 },
    }
}

impl ConnectionData {
    /// A fresh connection in the handshake stage, with an empty inventory
    /// and the main-hand hotbar slot held.
    pub fn new(entity_id: i32) -> (r: ConnectionData)
        ensures
            r.wf(),
            r.stage_view() == Stage::Handshake,
            r.uuid_view() is None,
            r.username_view() is None,
            r.dimension_view() is None,
            r.entity_id_view() == entity_id,
            r.gamemode_view() == Gamemode::Survival,
            r.loaded_chunks_view() == Seq::<Vec2i>::empty(),
            r.held_slot_view() == 36i16,
            r.sent_view() == 0i32,
            r.received_view() == 0i32,
            r.render_distance_view() == 2,
            forall|i: int|
                0 <= i < r.inventory_view().len() ==> (#[trigger] r.inventory_view()[i]).count_view()
                    == 0,
    {
        let mut inventory: Vec<ItemStack> = Vec::new();
        let mut i: usize = 0;
        while i < INVENTORY_SLOTS
            invariant
                i <= INVENTORY_SLOTS,
                inventory@.len() == i,
                forall|j: int|
                    0 <= j < i ==> (#[trigger] inventory@[j]).count_view() == 0,
            decreases INVENTORY_SLOTS - i,
        {
            inventory.push(ItemStack::air());
            i = i + 1;
        }
        ConnectionData {
            stage: Stage::Handshake,
            uuid: None,
            username: None,
            dimension: None,
            last_position: Vec3d::origin(),
            last_block_position: Vec3i::new(0, 0, 0),
            last_chunk_position: Vec2i::new(0, 0),
            direction: Vec2f::zero(),
            loaded_chunks: Vec::new(),
            render_distance: 2,
            entity_id,
            gamemode: Gamemode::Survival,
            inventory,
            cursor_item: ItemStack::air(),
            screen: None,
            held_slot: 36,
            teleport_sync_sent: 0,
            teleport_sync_received: 0,
            input_flags: 0,
        }
    }

    /// Advance the protocol stage along the handshake graph: `Handshake`
    /// forks to `Status` or `Login`, `Login` reaches `Configuration`,
    /// `Configuration` reaches `Play`; `Status` closes and `Play` only
    /// leaves by disconnect, so neither advances. Any other step is
    /// rejected and the stage stands.
    pub fn advance_stage(&mut self, to: Stage) -> (r: ActorResult<()>)
        ensures
            final(self).uuid_view() == old(self).uuid_view(),
            final(self).username_view() == old(self).username_view(),
            final(self).dimension_view() == old(self).dimension_view(),
            final(self).entity_id_view() == old(self).entity_id_view(),
            final(self).gamemode_view() == old(self).gamemode_view(),
            final(self).loaded_chunks_view() == old(self).loaded_chunks_view(),
            final(self).chunk_position_view() == old(self).chunk_position_view(),
            same_motion(old(self), final(self)),
            same_sync(old(self), final(self)),
            same_inventory(old(self), final(self)),
            same_misc(old(self), final(self)),
            match r {
                Ok(()) => spec_stage_step(old(self).stage_view(), to) && final(self).stage_view()
                    == to,
                Err(e) => e == ActorError::BadRequest && !spec_stage_step(
                    old(self).stage_view(),
                    to,
                ) && final(self).stage_view() == old(self).stage_view(),
            },
    {
        let allowed = match (self.stage, to) {
            (Stage::Handshake, Stage::Status) => true,
            (Stage::Handshake, Stage::Login) => true,
            (Stage::Login, Stage::Configuration) => true,
            (Stage::Configuration, Stage::Play) => true,
            _ => false,
        };
        if allowed {
            self.stage = to;
            Ok(())
        } else {
            Err(ActorError::BadRequest)
        }
    }

    /// The chunk coordinates the client currently holds.
    pub fn loaded_chunk_list(&self) -> (r: Vec<Vec2i>)
        ensures
            r@ == self.loaded_chunks_view(),
    {
        let n = self.loaded_chunks.len();
        let mut r: Vec<Vec2i> = Vec::new();
        let mut i: usize = 0;
        while i < n
            invariant
                n == self.loaded_chunks_view().len(),
                i <= n,
                r@ == self.loaded_chunks_view().take(i as int),
            decreases n - i,
        {
            proof {
                assert(self.loaded_chunks_view().take((i + 1) as int)
                    =~= self.loaded_chunks_view().take(i as int).push(
                    self.loaded_chunks_view()[i as int],
                ));
            }
            r.push(self.loaded_chunks[i]);
            i = i + 1;
        }
        proof {
            assert(self.loaded_chunks_view().take(n as int) =~= self.loaded_chunks_view());
        }
        r
    }

    pub fn stage(&self) -> (r: Stage)
        ensures
            r == self.stage_view(),
    {
        self.stage
    }

    /// The player's UUID, once login assigned one.
    pub fn uuid(&self) -> (r: Option<u128>)
        ensures
            r == self.uuid_view(),
    {
        self.uuid
    }

    /// Complete login: record the player's identity.
    pub fn set_identity(&mut self, uuid: u128, username: String)
        ensures
            final(self).uuid_view() == Some(uuid),
            final(self).username_view() == Some(username),
            final(self).stage_view() == old(self).stage_view(),
            same_motion(old(self), final(self)),
            same_sync(old(self), final(self)),
            same_inventory(old(self), final(self)),
            same_misc(old(self), final(self)),
    {
        self.uuid = Some(uuid);
        self.username = Some(username);
    }

    pub fn set_gamemode(&mut self, gamemode: Gamemode)
        ensures
            final(self).gamemode_view() == gamemode,
            final(self).stage_view() == old(self).stage_view(),
            final(self).uuid_view() == old(self).uuid_view(),
            same_motion(old(self), final(self)),
            same_sync(old(self), final(self)),
            same_inventory(old(self), final(self)),
            same_misc(old(self), final(self)),
    {
        self.gamemode = gamemode;
    }

    /// Record a teleport the server sent; its id must exceed every id sent
    /// before, and the client must acknowledge it before moves count.
    pub fn record_teleport_sent(&mut self, teleport_id: i32)
        requires
            old(self).wf(),
            teleport_id > old(self).sent_view(),
        ensures
            final(self).wf(),
            final(self).sent_view() == teleport_id,
            final(self).received_view() == old(self).received_view(),
            same_identity(old(self), final(self)),
            same_motion(old(self), final(self)),
            same_inventory(old(self), final(self)),
            same_misc(old(self), final(self)),
    {
        self.teleport_sync_sent = teleport_id;
    }

    pub fn get_inv_slot(&self, slot: usize) -> (r: ActorResult<ItemStack>)
        ensures
            match r {
                Ok(item) => slot < self.inventory_view().len() && item
                    == self.inventory_view()[slot as int],
                Err(e) => e == ActorError::IndexOutOfBounds && slot >= self.inventory_view().len(),
            },
    {
        if slot < self.inventory.len() {
            Ok(self.inventory[slot].clone())
        } else {
            Err(ActorError::IndexOutOfBounds)
        }
    }

    /// The play-stage packet handler: one bounded, synchronous update of
    /// the connection-local state, returning the packets, events and
    /// dimension messages to issue, in order. The contract pins, packet by
    /// packet, the new state and the exact effect list.
    #[verifier::rlimit(60)]
    pub fn handle_play_packet(
        &mut self,
        packet: PlayPacket,
        regs: &RegistryContainer,
        effects: &mut Vec<ConnectionEffect>,
    ) -> (r: ActorResult<()>)
        requires
            old(self).wf(),
            old(self).stage_view() == Stage::Play,
            old(self).uuid_view() is Some,
            regs.wf(),
        ensures
            final(self).wf(),
            same_identity(old(self), final(self)),
            match r {
                Ok(()) => {
                    let player = old(self).uuid_view().unwrap();
                    match packet {
                        PlayPacket::ChatCommand { command } => same_state(old(self), final(self))
                            && final(effects)@ == old(effects)@.push(
                            ConnectionEffect::EmitCommand { player, command },
                        ),
                        PlayPacket::PlayerAction { status, position } => {
                            &&& same_motion(old(self), final(self))
                            &&& same_sync(old(self), final(self))
                            &&& same_misc(old(self), final(self))
                            &&& final(self).cursor_view() == old(self).cursor_view()
                            &&& final(self).screen_view() == old(self).screen_view()
                            &&& final(self).held_slot_view() == old(self).held_slot_view()
                            &&& match status {
                                PlayerStatus::StartedDigging => {
                                    &&& final(self).inventory_view() == old(self).inventory_view()
                                    &&& if old(self).gamemode_view() == Gamemode::Creative {
                                        final(effects)@ == old(effects)@.push(
                                            ConnectionEffect::EmitStartBreak { player, position },
                                        ).push(ConnectionEffect::SetBlockAir { position }).push(
                                            ConnectionEffect::EmitBreak { player, position },
                                        )
                                    } else {
                                        final(effects)@ == old(effects)@.push(
                                            ConnectionEffect::EmitStartBreak { player, position },
                                        )
                                    }
                                },
                                PlayerStatus::FinishedDigging => {
                                    &&& final(self).inventory_view() == old(self).inventory_view()
                                    &&& if old(self).gamemode_view() != Gamemode::Creative {
                                        final(effects)@ == old(effects)@.push(
                                            ConnectionEffect::SetBlockAir { position },
                                        ).push(ConnectionEffect::EmitBreak { player, position })
                                    } else {
                                        final(effects)@ == old(effects)@
                                    }
                                },
                                PlayerStatus::DropItemStack | PlayerStatus::DropItem => {
                                    let held = old(self).held_slot_view() as int;
                                    &&& 0 <= held < old(self).inventory_view().len()
                                    &&& final(self).inventory_view().len() == old(
                                        self,
                                    ).inventory_view().len()
                                    &&& forall|j: int|
                                        0 <= j < old(self).inventory_view().len() && j != held
                                            ==> final(self).inventory_view()[j] == old(
                                            self,
                                        ).inventory_view()[j]
                                    &&& final(self).inventory_view()[held].count_view() == 0u16
                                    &&& final(self).inventory_view()[held].kind_view() == (
                                    "minecraft"@, "air"@)
                                    &&& final(effects)@ == old(effects)@.push(
                                        ConnectionEffect::EmitDrop {
                                            player,
                                            item: old(self).inventory_view()[held],
                                        },
                                    )
                                },
                                PlayerStatus::SwapItems => final(self).inventory_view() == old(
                                    self,
                                ).inventory_view() && final(effects)@ == old(effects)@.push(
                                    ConnectionEffect::EmitSwapHands { player },
                                ),
                                _ => final(self).inventory_view() == old(self).inventory_view()
                                    && final(effects)@ == old(effects)@,
                            }
                        },
                        PlayPacket::AcceptTeleportation { teleport_id } => {
                            &&& same_motion(old(self), final(self))
                            &&& same_inventory(old(self), final(self))
                            &&& same_misc(old(self), final(self))
                            &&& final(self).sent_view() == old(self).sent_view()
                            &&& if teleport_id == 0 {
                                final(self).received_view() == old(self).received_view() && final(effects)@ == old(effects)@.push(ConnectionEffect::BeginJoinFlow).push(
                                    ConnectionEffect::SendChunks,
                                )
                            } else if teleport_id != -1 && teleport_id <= old(self).sent_view() {
                                final(self).received_view() == teleport_id && final(effects)@
                                    == old(effects)@.push(ConnectionEffect::SendChunks)
                            } else {
                                final(self).received_view() == old(self).received_view() && final(effects)@ == old(effects)@.push(ConnectionEffect::SendChunks)
                            }
                        },
                        PlayPacket::MovePlayerPos { position, block_position } => {
                            &&& same_sync(old(self), final(self))
                            &&& same_inventory(old(self), final(self))
                            &&& same_misc(old(self), final(self))
                            &&& if spec_mid_teleport(old(self)) {
                                same_motion(old(self), final(self)) && final(effects)@ == old(
                                    effects,
                                )@
                            } else {
                                &&& final(self).position_view() == position
                                &&& final(self).block_position_view() == block_position
                                &&& final(self).direction_view() == old(self).direction_view()
                                &&& final(effects)@ == old(effects)@.push(
                                    ConnectionEffect::SendChunks,
                                ).push(
                                    ConnectionEffect::EmitMove {
                                        player,
                                        new_position: position,
                                        new_direction: old(self).direction_view(),
                                    },
                                ).push(ConnectionEffect::UpdateSelfEntity)
                            }
                        },
                        PlayPacket::MovePlayerPosRot { position, block_position, direction } => {
                            &&& same_sync(old(self), final(self))
                            &&& same_inventory(old(self), final(self))
                            &&& same_misc(old(self), final(self))
                            &&& if spec_mid_teleport(old(self)) {
                                same_motion(old(self), final(self)) && final(effects)@ == old(
                                    effects,
                                )@
                            } else {
                                &&& final(self).position_view() == position
                                &&& final(self).block_position_view() == block_position
                                &&& final(self).direction_view() == direction
                                &&& final(effects)@ == old(effects)@.push(
                                    ConnectionEffect::EmitMove {
                                        player,
                                        new_position: position,
                                        new_direction: direction,
                                    },
                                ).push(ConnectionEffect::UpdateSelfEntity).push(
                                    ConnectionEffect::SendChunks,
                                )
                            }
                        },
                        PlayPacket::MovePlayerRot { direction } => {
                            &&& same_sync(old(self), final(self))
                            &&& same_inventory(old(self), final(self))
                            &&& same_misc(old(self), final(self))
                            &&& if spec_mid_teleport(old(self)) {
                                same_motion(old(self), final(self)) && final(effects)@ == old(
                                    effects,
                                )@
                            } else {
                                &&& final(self).position_view() == old(self).position_view()
                                &&& final(self).block_position_view() == old(
                                    self,
                                ).block_position_view()
                                &&& final(self).direction_view() == direction
                                &&& final(effects)@ == old(effects)@.push(
                                    ConnectionEffect::EmitMove {
                                        player,
                                        new_position: old(self).position_view(),
                                        new_direction: direction,
                                    },
                                ).push(ConnectionEffect::UpdateSelfEntity)
                            }
                        },
                        PlayPacket::ClientInformation { view_distance } => {
                            &&& same_motion(old(self), final(self))
                            &&& same_sync(old(self), final(self))
                            &&& same_inventory(old(self), final(self))
                            &&& final(self).render_distance_view() == view_distance as int
                            &&& final(self).input_flags_view() == old(self).input_flags_view()
                            &&& final(effects)@ == old(effects)@
                        },
                        PlayPacket::PlayerInput { flags } => {
                            &&& same_motion(old(self), final(self))
                            &&& same_sync(old(self), final(self))
                            &&& same_inventory(old(self), final(self))
                            &&& final(self).render_distance_view() == old(
                                self,
                            ).render_distance_view()
                            &&& final(self).input_flags_view() == flags
                            &&& final(effects)@ == old(effects)@
                        },
                        PlayPacket::PingRequest { id } => same_state(old(self), final(self))
                            && final(effects)@ == old(effects)@.push(
                            ConnectionEffect::WritePong { id },
                        ),
                        PlayPacket::SetCreativeModeSlot { slot, item } => {
                            &&& same_motion(old(self), final(self))
                            &&& same_sync(old(self), final(self))
                            &&& same_misc(old(self), final(self))
                            &&& final(self).cursor_view() == old(self).cursor_view()
                            &&& final(self).screen_view() == old(self).screen_view()
                            &&& final(self).held_slot_view() == old(self).held_slot_view()
                            &&& 0 <= slot < old(self).inventory_view().len()
                            &&& final(self).inventory_view().len() == old(
                                self,
                            ).inventory_view().len()
                            &&& forall|j: int|
                                0 <= j < old(self).inventory_view().len() && j != slot as int
                                    ==> final(self).inventory_view()[j] == old(
                                    self,
                                ).inventory_view()[j]
                            &&& final(self).inventory_view()[slot as int].kind_view()
                                == item.kind_view()
                            &&& final(self).inventory_view()[slot as int].count_view()
                                == item.count_view()
                            &&& final(self).inventory_view()[slot as int].item_model_view() == Some(
                                item.kind_view(),
                            )
                            &&& final(effects)@ == old(effects)@
                        },
                        PlayPacket::SetCarriedItem { slot } => {
                            &&& same_motion(old(self), final(self))
                            &&& same_sync(old(self), final(self))
                            &&& same_misc(old(self), final(self))
                            &&& final(self).inventory_view() == old(self).inventory_view()
                            &&& final(self).cursor_view() == old(self).cursor_view()
                            &&& final(self).screen_view() == old(self).screen_view()
                            &&& if slot <= 0x7fff - 36 {
                                final(self).held_slot_view() as int == slot + 36 && final(effects)@
                                    == old(effects)@.push(
                                    ConnectionEffect::EmitHeldSlot {
                                        player,
                                        slot: (slot + 36) as i16,
                                    },
                                )
                            } else {
                                final(self).held_slot_view() == old(self).held_slot_view() && final(effects)@ == old(effects)@
                            }
                        },
                        PlayPacket::UseItem { main_hand } => same_state(old(self), final(self)) && (
                        if main_hand {
                            final(effects)@ == old(effects)@.push(
                                ConnectionEffect::EmitRightClick { player },
                            )
                        } else {
                            final(effects)@ == old(effects)@
                        }),
                        PlayPacket::UseItemOn { target, face } => {
                            let off = spec_face_offset(face);
                            let sum_fits = (-0x8000_0000 <= target.x + off.x <= 0x7fff_ffff) && (
                            -0x8000_0000 <= target.y + off.y <= 0x7fff_ffff) && (-0x8000_0000
                                <= target.z + off.z <= 0x7fff_ffff);
                            &&& same_motion(old(self), final(self))
                            &&& same_sync(old(self), final(self))
                            &&& same_misc(old(self), final(self))
                            &&& final(self).cursor_view() == old(self).cursor_view()
                            &&& final(self).screen_view() == old(self).screen_view()
                            &&& final(self).held_slot_view() == old(self).held_slot_view()
                            &&& if !sum_fits {
                                final(self).inventory_view() == old(self).inventory_view() && final(effects)@ == old(effects)@
                            } else {
                                let held = old(self).held_slot_view() as int;
                                let final_pos = Vec3i {
                                    x: (target.x + off.x) as i32,
                                    y: (target.y + off.y) as i32,
                                    z: (target.z + off.z) as i32,
                                };
                                let stack = old(self).inventory_view()[held];
                                let valid = crate::blocks::spec_has_block_id(
                                    &regs.blocks,
                                    stack.kind_view(),
                                );
                                &&& 0 <= held < old(self).inventory_view().len()
                                &&& final(self).inventory_view().len() == old(
                                    self,
                                ).inventory_view().len()
                                &&& forall|j: int|
                                    0 <= j < old(self).inventory_view().len() && j != held
                                        ==> final(self).inventory_view()[j] == old(
                                        self,
                                    ).inventory_view()[j]
                                &&& if valid {
                                    &&& (if stack.count_view() <= 1 {
                                        final(self).inventory_view()[held].count_view() == 0u16
                                            && final(self).inventory_view()[held].kind_view() == (
                                        "minecraft"@, "air"@)
                                    } else {
                                        final(self).inventory_view()[held].count_view() as int
                                            == stack.count_view() - 1 && final(self).inventory_view()[held].kind_view() == stack.kind_view()
                                    })
                                    &&& final(effects)@.len() == old(effects)@.len() + 2
                                    &&& final(effects)@.take(old(effects)@.len() as int) == old(
                                        effects,
                                    )@
                                    &&& final(effects)@[old(effects)@.len() as int] matches
                                        ConnectionEffect::SetBlock { position, kind } && position
                                        == final_pos && kind@ == stack.kind_view()
                                    &&& final(effects)@[old(effects)@.len() as int + 1] matches
                                        ConnectionEffect::EmitPlace { player: p, position, kind }
                                        && p == player && position == final_pos && kind@
                                        == stack.kind_view()
                                } else {
                                    &&& final(self).inventory_view() == old(self).inventory_view()
                                    &&& final(effects)@.len() == old(effects)@.len() + 2
                                    &&& final(effects)@.take(old(effects)@.len() as int) == old(
                                        effects,
                                    )@
                                    &&& final(effects)@[old(effects)@.len() as int] matches
                                        ConnectionEffect::SetBlock { position, kind } && position
                                        == final_pos && kind@ == stack.kind_view()
                                    &&& final(effects)@[old(effects)@.len() as int + 1]
                                        == ConnectionEffect::EmitRightClick { player }
                                }
                            }
                        },
                        PlayPacket::Chat { message } => same_state(old(self), final(self)) && final(effects)@ == old(effects)@.push(ConnectionEffect::EmitChat { player, message }),
                        PlayPacket::ContainerClick { cursor, changed_slots } => {
                            &&& same_motion(old(self), final(self))
                            &&& same_sync(old(self), final(self))
                            &&& same_misc(old(self), final(self))
                            &&& final(self).held_slot_view() == old(self).held_slot_view()
                            &&& final(self).cursor_view() == cursor
                            &&& final(effects)@ == old(effects)@
                            &&& match old(self).screen_view() {
                                Some((csize, cinv)) => {
                                    &&& spec_apply_clicks(
                                        old(self).inventory_view(),
                                        cinv,
                                        csize,
                                        changed_slots@,
                                    ) == Some(
                                        (
                                            final(self).inventory_view(),
                                            final(self).screen_view().unwrap().1,
                                        ),
                                    )
                                    &&& final(self).screen_view() is Some
                                    &&& final(self).screen_view().unwrap().0 == csize
                                },
                                None => {
                                    &&& spec_apply_direct_clicks(
                                        old(self).inventory_view(),
                                        changed_slots@,
                                    ) == Some(final(self).inventory_view())
                                    &&& final(self).screen_view() is None
                                },
                            }
                        },
                        PlayPacket::ContainerClose => {
                            &&& same_motion(old(self), final(self))
                            &&& same_sync(old(self), final(self))
                            &&& same_misc(old(self), final(self))
                            &&& final(self).inventory_view() == old(self).inventory_view()
                            &&& final(self).held_slot_view() == old(self).held_slot_view()
                            &&& final(self).cursor_view().kind_view() == ("minecraft"@, "air"@)
                            &&& final(self).cursor_view().count_view() == 0u16
                            &&& final(self).screen_view() is None
                            &&& final(effects)@ == old(effects)@
                        },
                        PlayPacket::Interact { entity_id, attack } => same_state(
                            old(self),
                            final(self),
                        ) && (if attack {
                            final(effects)@ == old(effects)@.push(
                                ConnectionEffect::AttackInteraction { player, entity_id },
                            )
                        } else {
                            final(effects)@ == old(effects)@
                        }),
                        PlayPacket::Swing { main_hand } => same_state(old(self), final(self))
                            && final(effects)@ == old(effects)@.push(
                            ConnectionEffect::BroadcastSwing {
                                player,
                                entity_id: old(self).entity_id_view(),
                                main_hand,
                            },
                        ),
                        _ => same_state(old(self), final(self)) && final(effects)@ == old(
                            effects,
                        )@,
                    }
                },
                Err(e) => {
                    let player = old(self).uuid_view().unwrap();
                    &&& e == ActorError::IndexOutOfBounds
                    &&& match packet {
                        PlayPacket::PlayerAction { status, position } => {
                            &&& (status == PlayerStatus::DropItemStack || status
                                == PlayerStatus::DropItem)
                            &&& !(0 <= (old(self).held_slot_view() as int) < old(
                                self,
                            ).inventory_view().len())
                            &&& same_state(old(self), final(self))
                            &&& final(effects)@ == old(effects)@
                        },
                        PlayPacket::SetCreativeModeSlot { slot, item } => {
                            &&& !(0 <= (slot as int) < old(self).inventory_view().len())
                            &&& same_state(old(self), final(self))
                            &&& final(effects)@ == old(effects)@
                        },
                        PlayPacket::UseItemOn { target, face } => {
                            let off = spec_face_offset(face);
                            &&& (-0x8000_0000 <= target.x + off.x <= 0x7fff_ffff)
                            &&& (-0x8000_0000 <= target.y + off.y <= 0x7fff_ffff)
                            &&& (-0x8000_0000 <= target.z + off.z <= 0x7fff_ffff)
                            &&& !(0 <= (old(self).held_slot_view() as int) < old(
                                self,
                            ).inventory_view().len())
                            &&& same_state(old(self), final(self))
                            &&& final(effects)@ == old(effects)@
                        },
                        PlayPacket::ContainerClick { cursor, changed_slots } => {
                            &&& same_motion(old(self), final(self))
                            &&& same_sync(old(self), final(self))
                            &&& same_misc(old(self), final(self))
                            &&& final(self).held_slot_view() == old(self).held_slot_view()
                            &&& final(self).cursor_view() == cursor
                            &&& final(effects)@ == old(effects)@
                            &&& match old(self).screen_view() {
                                Some((csize, cinv)) => {
                                    &&& spec_apply_clicks(
                                        old(self).inventory_view(),
                                        cinv,
                                        csize,
                                        changed_slots@,
                                    ) is None
                                    &&& final(self).screen_view() is Some
                                    &&& final(self).screen_view().unwrap().0 == csize
                                    &&& exists|i: int|
                                        {
                                            &&& 0 <= i < changed_slots@.len()
                                            &&& #[trigger] spec_apply_clicks(
                                                old(self).inventory_view(),
                                                cinv,
                                                csize,
                                                changed_slots@.take(i),
                                            ) == Some(
                                                (
                                                    final(self).inventory_view(),
                                                    final(self).screen_view().unwrap().1,
                                                ),
                                            )
                                            &&& spec_apply_click(
                                                final(self).inventory_view(),
                                                final(self).screen_view().unwrap().1,
                                                csize,
                                                changed_slots@[i].0 as int,
                                                changed_slots@[i].1,
                                            ) is None
                                        }
                                },
                                None => {
                                    &&& spec_apply_direct_clicks(
                                        old(self).inventory_view(),
                                        changed_slots@,
                                    ) is None
                                    &&& final(self).screen_view() is None
                                    &&& exists|i: int|
                                        {
                                            &&& 0 <= i < changed_slots@.len()
                                            &&& #[trigger] spec_apply_direct_clicks(
                                                old(self).inventory_view(),
                                                changed_slots@.take(i),
                                            ) == Some(final(self).inventory_view())
                                            &&& !(0 <= (changed_slots@[i].0 as int) < final(self).inventory_view().len())
                                        }
                                },
                            }
                        },
                        _ => false,
                    }
                },
            },
    {
        let player: u128 = match self.uuid {
            Some(u) => u,
            None => {
                proof {
                    assert(false);
                }
                0
            }
        };
        match packet {
            PlayPacket::ChatCommand { command } => {
                effects.push(ConnectionEffect::EmitCommand { player, command });
                Ok(())
            }
            PlayPacket::PlayerAction { status, position } => {
                match status {
                    PlayerStatus::StartedDigging => {
                        effects.push(ConnectionEffect::EmitStartBreak { player, position });
                        if self.gamemode == Gamemode::Creative {
                            effects.push(ConnectionEffect::SetBlockAir { position });
                            effects.push(ConnectionEffect::EmitBreak { player, position });
                        }
                        Ok(())
                    }
                    PlayerStatus::FinishedDigging => {
                        if self.gamemode != Gamemode::Creative {
                            effects.push(ConnectionEffect::SetBlockAir { position });
                            effects.push(ConnectionEffect::EmitBreak { player, position });
                        }
                        Ok(())
                    }
                    PlayerStatus::DropItemStack | PlayerStatus::DropItem => {
                        if self.held_slot < 0 {
                            return Err(ActorError::IndexOutOfBounds);
                        }
                        let held = self.held_slot as usize;
                        let item = match self.get_inv_slot(held) {
                            Ok(item) => item,
                            Err(e) => {
                                return Err(e);
                            }
                        };
                        match self.set_inv_slot(held, ItemStack::air()) {
                            Ok(()) => {}
                            Err(e) => {
                                return Err(e);
                            }
                        }
                        effects.push(ConnectionEffect::EmitDrop { player, item });
                        Ok(())
                    }
                    PlayerStatus::SwapItems => {
                        effects.push(ConnectionEffect::EmitSwapHands { player });
                        Ok(())
                    }
                    _ => Ok(()),
                }
            }
            PlayPacket::AcceptTeleportation { teleport_id } => {
                if teleport_id == 0 {
                    effects.push(ConnectionEffect::BeginJoinFlow);
                } else if teleport_id != -1 && teleport_id <= self.teleport_sync_sent {
                    self.teleport_sync_received = teleport_id;
                }
                effects.push(ConnectionEffect::SendChunks);
                Ok(())
            }
            PlayPacket::MovePlayerPos { position, block_position } => {
                if self.teleport_sync_sent > self.teleport_sync_received {
                    return Ok(());
                }
                self.last_position = position;
                self.last_block_position = block_position;
                effects.push(ConnectionEffect::SendChunks);
                effects.push(
                    ConnectionEffect::EmitMove {
                        player,
                        new_position: position,
                        new_direction: self.direction,
                    },
                );
                effects.push(ConnectionEffect::UpdateSelfEntity);
                Ok(())
            }
            PlayPacket::MovePlayerPosRot { position, block_position, direction } => {
                if self.teleport_sync_sent > self.teleport_sync_received {
                    return Ok(());
                }
                self.last_position = position;
                self.last_block_position = block_position;
                self.direction = direction;
                effects.push(
                    ConnectionEffect::EmitMove { player, new_position: position, new_direction: direction },
                );
                effects.push(ConnectionEffect::UpdateSelfEntity);
                effects.push(ConnectionEffect::SendChunks);
                Ok(())
            }
            PlayPacket::MovePlayerRot { direction } => {
                if self.teleport_sync_sent > self.teleport_sync_received {
                    return Ok(());
                }
                self.direction = direction;
                effects.push(
                    ConnectionEffect::EmitMove {
                        player,
                        new_position: self.last_position,
                        new_direction: direction,
                    },
                );
                effects.push(ConnectionEffect::UpdateSelfEntity);
                Ok(())
            }
            PlayPacket::ClientInformation { view_distance } => {
                self.render_distance = view_distance as i32;
                Ok(())
            }
            PlayPacket::PlayerInput { flags } => {
                self.input_flags = flags;
                Ok(())
            }
            PlayPacket::ClientTickEnd => Ok(()),
            PlayPacket::PingRequest { id } => {
                effects.push(ConnectionEffect::WritePong { id });
                Ok(())
            }
            PlayPacket::ChunkBatchReceived => Ok(()),
            PlayPacket::SetCreativeModeSlot { slot, item } => {
                if slot < 0 {
                    return Err(ActorError::IndexOutOfBounds);
                }
                let kind = item.kind();
                let mut stack = item;
                let model_type = ItemModelComponentType;
                model_type.insert_component(&mut stack, kind);
                self.set_inv_slot(slot as usize, stack)
            }
            PlayPacket::SetCarriedItem { slot } => {
                if slot <= 0x7fff - 36 {
                    self.held_slot = slot + 36;
                    effects.push(ConnectionEffect::EmitHeldSlot { player, slot: slot + 36 });
                }
                Ok(())
            }
            PlayPacket::UseItem { main_hand } => {
                if main_hand {
                    effects.push(ConnectionEffect::EmitRightClick { player });
                }
                Ok(())
            }
            PlayPacket::UseItemOn { target, face } => {
                let off = Self::face_offset(face);
                let fx = match target.x.checked_add(off.x) {
                    Some(v) => v,
                    None => {
                        return Ok(());
                    }
                };
                let fy = match target.y.checked_add(off.y) {
                    Some(v) => v,
                    None => {
                        return Ok(());
                    }
                };
                let fz = match target.z.checked_add(off.z) {
                    Some(v) => v,
                    None => {
                        return Ok(());
                    }
                };
                let final_pos = Vec3i { x: fx, y: fy, z: fz };
                if self.held_slot < 0 {
                    return Err(ActorError::IndexOutOfBounds);
                }
                let held_idx = self.held_slot as usize;
                let held = match self.get_inv_slot(held_idx) {
                    Ok(item) => item,
                    Err(e) => {
                        return Err(e);
                    }
                };
                let kind = held.kind();
                effects.push(ConnectionEffect::SetBlock { position: final_pos, kind });
                let state = crate::blocks::BlockState::new(held.kind());
                let valid = state.id_is_valid(&regs.blocks);
                if valid {
                    let count = held.count();
                    if count <= 1 {
                        match self.set_inv_slot(held_idx, ItemStack::air()) {
                            Ok(()) => {}
                            Err(e) => {
                                return Err(e);
                            }
                        }
                    } else {
                        let mut updated = held.clone();
                        let count_type = ItemCountComponentType;
                        count_type.insert_component(&mut updated, count - 1);
                        match self.set_inv_slot(held_idx, updated) {
                            Ok(()) => {}
                            Err(e) => {
                                return Err(e);
                            }
                        }
                    }
                    effects.push(
                        ConnectionEffect::EmitPlace {
                            player,
                            position: final_pos,
                            kind: held.kind(),
                        },
                    );
                } else {
                    effects.push(ConnectionEffect::EmitRightClick { player });
                }
                Ok(())
            }
            PlayPacket::Chat { message } => {
                effects.push(ConnectionEffect::EmitChat { player, message });
                Ok(())
            }
            PlayPacket::ContainerClick { cursor, changed_slots } => {
                self.cursor_item = cursor;
                self.apply_container_click(changed_slots)
            }
            PlayPacket::ContainerClose => {
                self.cursor_item = ItemStack::air();
                self.screen = None;
                Ok(())
            }
            PlayPacket::Interact { entity_id, attack } => {
                if attack {
                    effects.push(ConnectionEffect::AttackInteraction { player, entity_id });
                }
                Ok(())
            }
            PlayPacket::Swing { main_hand } => {
                effects.push(
                    ConnectionEffect::BroadcastSwing {
                        player,
                        entity_id: self.entity_id,
                        main_hand,
                    },
                );
                Ok(())
            }
            PlayPacket::Unknown => Ok(()),
        }
    }

    /// Complete the first-join flow once the join event's handler has
    /// chosen a dimension key — or failed to. On success the connection
    /// binds to the dimension and the caller is asked, in order, to send
    /// the wait-for-chunks game event, broadcast this player's info entry,
    /// send every existing info entry and entity back, and spawn the
    /// player's entity in the dimension. On failure the caller sends a
    /// disconnect and the connection stays unbound.
    pub fn connect_to_new_dimension(
        &mut self,
        chosen: Option<Id>,
        effects: &mut Vec<ConnectionEffect>,
    ) -> (r: ActorResult<()>)
        requires
            old(self).uuid_view() is Some,
        ensures
            final(self).stage_view() == old(self).stage_view(),
            final(self).uuid_view() == old(self).uuid_view(),
            final(self).username_view() == old(self).username_view(),
            final(self).entity_id_view() == old(self).entity_id_view(),
            final(self).gamemode_view() == old(self).gamemode_view(),
            final(self).loaded_chunks_view() == old(self).loaded_chunks_view(),
            final(self).chunk_position_view() == old(self).chunk_position_view(),
            same_motion(old(self), final(self)),
            same_sync(old(self), final(self)),
            same_inventory(old(self), final(self)),
            same_misc(old(self), final(self)),
            match r {
                Ok(()) => {
                    &&& chosen is Some
                    &&& final(self).dimension_view() == chosen
                    &&& final(effects)@ == old(effects)@.push(
                        ConnectionEffect::WriteGameEventWaitForChunks,
                    ).push(
                        ConnectionEffect::BroadcastOwnPlayerInfo {
                            player: old(self).uuid_view().unwrap(),
                        },
                    ).push(ConnectionEffect::SendAllPlayerInfo).push(
                        ConnectionEffect::SendAllEntities,
                    ).push(
                        ConnectionEffect::SpawnPlayerEntity {
                            player: old(self).uuid_view().unwrap(),
                            entity_id: old(self).entity_id_view(),
                        },
                    )
                },
                Err(e) => {
                    &&& e == ActorError::ActorIsNotLoaded
                    &&& chosen is None
                    &&& final(self).dimension_view() is None
                    &&& final(effects)@ == old(effects)@.push(ConnectionEffect::WriteDisconnect)
                },
            },
    {
        let player: u128 = match self.uuid {
            Some(u) => u,
            None => {
                proof {
                    assert(false);
                }
                0
            }
        };
        match chosen {
            None => {
                self.dimension = None;
                effects.push(ConnectionEffect::WriteDisconnect);
                Err(ActorError::ActorIsNotLoaded)
            }
            Some(key) => {
                self.dimension = Some(key);
                effects.push(ConnectionEffect::WriteGameEventWaitForChunks);
                effects.push(ConnectionEffect::BroadcastOwnPlayerInfo { player });
                effects.push(ConnectionEffect::SendAllPlayerInfo);
                effects.push(ConnectionEffect::SendAllEntities);
                effects.push(
                    ConnectionEffect::SpawnPlayerEntity { player, entity_id: self.entity_id },
                );
                Ok(())
            }
        }
    }

    fn face_offset(face: BlockFace) -> (r: Vec3i)
        ensures
            r == spec_face_offset(face),
    {
        match face {
            BlockFace::Down => Vec3i { x: 0, y: -1, z: 0 },
            BlockFace::Up => Vec3i { x: 0, y: 1, z: 0 },
            BlockFace::North => Vec3i { x: 0, y: 0, z: -1 },
            BlockFace::South => Vec3i { x: 0, y: 0, z: 1 },
            BlockFace::West => Vec3i { x: -1, y: 0, z: 0 },
            BlockFace::East => Vec3i { x: 1, y: 0, z: 0 },
        }
    }

    /// Replay the client's declared slot deltas onto the correct backing
    /// inventory, through the open screen's slot grouping when a screen is
    /// open, directly onto the player inventory otherwise.
    fn apply_container_click(&mut self, changed_slots: Vec<(i16, ItemStack)>) -> (r: ActorResult<
        (),
    >)
        ensures
            same_identity(old(self), final(self)),
            same_motion(old(self), final(self)),
            same_sync(old(self), final(self)),
            same_misc(old(self), final(self)),
            final(self).held_slot_view() == old(self).held_slot_view(),
            final(self).cursor_view() == old(self).cursor_view(),
            final(self).inventory_view().len() == old(self).inventory_view().len(),
            match r {
                Ok(()) => match old(self).screen_view() {
                    Some((csize, cinv)) => {
                        &&& spec_apply_clicks(
                            old(self).inventory_view(),
                            cinv,
                            csize,
                            changed_slots@,
                        ) == Some(
                            (final(self).inventory_view(), final(self).screen_view().unwrap().1),
                        )
                        &&& final(self).screen_view() is Some
                        &&& final(self).screen_view().unwrap().0 == csize
                    },
                    None => {
                        &&& spec_apply_direct_clicks(old(self).inventory_view(), changed_slots@)
                            == Some(final(self).inventory_view())
                        &&& final(self).screen_view() is None
                    },
                },
                Err(e) => {
                    &&& e == ActorError::IndexOutOfBounds
                    &&& match old(self).screen_view() {
                        Some((csize, cinv)) => {
                            &&& spec_apply_clicks(
                                old(self).inventory_view(),
                                cinv,
                                csize,
                                changed_slots@,
                            ) is None
                            &&& final(self).screen_view() is Some
                            &&& final(self).screen_view().unwrap().0 == csize
                            &&& exists|i: int|
                                {
                                    &&& 0 <= i < changed_slots@.len()
                                    &&& #[trigger] spec_apply_clicks(
                                        old(self).inventory_view(),
                                        cinv,
                                        csize,
                                        changed_slots@.take(i),
                                    ) == Some(
                                        (
                                            final(self).inventory_view(),
                                            final(self).screen_view().unwrap().1,
                                        ),
                                    )
                                    &&& spec_apply_click(
                                        final(self).inventory_view(),
                                        final(self).screen_view().unwrap().1,
                                        csize,
                                        changed_slots@[i].0 as int,
                                        changed_slots@[i].1,
                                    ) is None
                                }
                        },
                        None => {
                            &&& spec_apply_direct_clicks(
                                old(self).inventory_view(),
                                changed_slots@,
                            ) is None
                            &&& final(self).screen_view() is None
                            &&& exists|i: int|
                                {
                                    &&& 0 <= i < changed_slots@.len()
                                    &&& #[trigger] spec_apply_direct_clicks(
                                        old(self).inventory_view(),
                                        changed_slots@.take(i),
                                    ) == Some(final(self).inventory_view())
                                    &&& !(0 <= (changed_slots@[i].0 as int) < final(self).inventory_view().len())
                                }
                        },
                    }
                },
            },
    {
        let n = changed_slots.len();
        let mut i: usize = 0;
        match self.screen.take() {
            Some((csize, mut cinv)) => {
                while i < n
                    invariant
                        i <= n,
                        n == changed_slots@.len(),
                        self.screen_view() is None,
                        old(self).screen_view() == Some(
                            (csize as int, old(self).screen_view().unwrap().1),
                        ),
                        self.stage_view() == old(self).stage_view(),
                        self.uuid_view() == old(self).uuid_view(),
                        self.username_view() == old(self).username_view(),
                        self.dimension_view() == old(self).dimension_view(),
                        self.entity_id_view() == old(self).entity_id_view(),
                        self.gamemode_view() == old(self).gamemode_view(),
                        self.loaded_chunks_view() == old(self).loaded_chunks_view(),
                        self.chunk_position_view() == old(self).chunk_position_view(),
                        same_motion(old(self), self),
                        same_sync(old(self), self),
                        same_misc(old(self), self),
                        self.held_slot_view() == old(self).held_slot_view(),
                        self.cursor_view() == old(self).cursor_view(),
                        self.inventory_view().len() == old(self).inventory_view().len(),
                        spec_apply_clicks(
                            old(self).inventory_view(),
                            old(self).screen_view().unwrap().1,
                            csize as int,
                            changed_slots@.take(i as int),
                        ) == Some((self.inventory@, cinv@)),
                    decreases n - i,
                {
                    proof {
                        assert(changed_slots@.take((i + 1) as int).drop_last() =~= changed_slots@.take(i as int));
                        assert(changed_slots@.take((i + 1) as int).last() == changed_slots@[i as int]);
                    }
                    let slot = changed_slots[i].0;
                    let item = changed_slots[i].1.clone();
                    if slot < 0 {
                        proof {
                            lemma_screen_click_fails(
                                old(self).inventory_view(),
                                old(self).screen_view().unwrap().1,
                                csize as int,
                                changed_slots@,
                                i as int,
                                self.inventory@,
                                cinv@,
                            );
                        }
                        self.screen = Some((csize, cinv));
                        return Err(ActorError::IndexOutOfBounds);
                    }
                    let slot_us = slot as usize;
                    if slot_us < csize && slot_us < cinv.len() {
                        cinv[slot_us] = item;
                    } else if slot_us >= csize && slot_us - csize < 27 && 9 + (slot_us - csize)
                        < self.inventory.len() {
                        let idx = 9 + (slot_us - csize);
                        self.inventory[idx] = item;
                    } else if slot_us >= csize && slot_us - csize >= 27 && slot_us - csize < 36
                        && 36 + (slot_us - csize - 27) < self.inventory.len() {
                        let idx = 36 + (slot_us - csize - 27);
                        self.inventory[idx] = item;
                    } else {
                        proof {
                            lemma_screen_click_fails(
                                old(self).inventory_view(),
                                old(self).screen_view().unwrap().1,
                                csize as int,
                                changed_slots@,
                                i as int,
                                self.inventory@,
                                cinv@,
                            );
                        }
                        self.screen = Some((csize, cinv));
                        return Err(ActorError::IndexOutOfBounds);
                    }
                    i = i + 1;
                }
                proof {
                    assert(changed_slots@.take(n as int) =~= changed_slots@);
                }
                self.screen = Some((csize, cinv));
                Ok(())
            }
            None => {
                while i < n
                    invariant
                        i <= n,
                        n == changed_slots@.len(),
                        old(self).screen_view() is None,
                        self.screen_view() is None,
                        self.stage_view() == old(self).stage_view(),
                        self.uuid_view() == old(self).uuid_view(),
                        self.username_view() == old(self).username_view(),
                        self.dimension_view() == old(self).dimension_view(),
                        self.entity_id_view() == old(self).entity_id_view(),
                        self.gamemode_view() == old(self).gamemode_view(),
                        self.loaded_chunks_view() == old(self).loaded_chunks_view(),
                        self.chunk_position_view() == old(self).chunk_position_view(),
                        same_motion(old(self), self),
                        same_sync(old(self), self),
                        same_misc(old(self), self),
                        self.held_slot_view() == old(self).held_slot_view(),
                        self.cursor_view() == old(self).cursor_view(),
                        self.inventory_view().len() == old(self).inventory_view().len(),
                        spec_apply_direct_clicks(
                            old(self).inventory_view(),
                            changed_slots@.take(i as int),
                        ) == Some(self.inventory@),
                    decreases n - i,
                {
                    proof {
                        assert(changed_slots@.take((i + 1) as int).drop_last() =~= changed_slots@.take(i as int));
                        assert(changed_slots@.take((i + 1) as int).last() == changed_slots@[i as int]);
                    }
                    let slot = changed_slots[i].0;
                    let item = changed_slots[i].1.clone();
                    if slot >= 0 && (slot as usize) < self.inventory.len() {
                        let idx = slot as usize;
                        self.inventory[idx] = item;
                    } else {
                        proof {
                            lemma_direct_click_fails(
                                old(self).inventory_view(),
                                changed_slots@,
                                i as int,
                                self.inventory@,
                            );
                        }
                        return Err(ActorError::IndexOutOfBounds);
                    }
                    i = i + 1;
                }
                proof {
                    assert(changed_slots@.take(n as int) =~= changed_slots@);
                }
                Ok(())
            }
        }
    }

    pub fn set_inv_slot(&mut self, slot: usize, item: ItemStack) -> (r: ActorResult<()>)
        ensures
            same_identity(old(self), final(self)),
            same_motion(old(self), final(self)),
            same_sync(old(self), final(self)),
            same_misc(old(self), final(self)),
            final(self).cursor_view() == old(self).cursor_view(),
            final(self).screen_view() == old(self).screen_view(),
            final(self).held_slot_view() == old(self).held_slot_view(),
            match r {
                Ok(()) => slot < old(self).inventory_view().len() && final(self).inventory_view()
                    == old(self).inventory_view().update(slot as int, item),
                Err(e) => e == ActorError::IndexOutOfBounds && slot >= old(
                    self,
                ).inventory_view().len() && final(self).inventory_view() == old(
                    self,
                ).inventory_view(),
            },
    {
        if slot < self.inventory.len() {
            self.inventory[slot] = item;
            Ok(())
        } else {
            Err(ActorError::IndexOutOfBounds)
        }
    }
}


impl ConnectionData {
    /// One step of chunk streaming. Recomputes the chunk center from the
    /// player's position, prunes the loaded set to the half-side
    /// `render_distance / 2 + 2` window around it, and picks the nearest
    /// chunk of the window not yet loaded — smallest squared distance to
    /// the center, the enumeration's earliest among equals — marking it
    /// loaded. Returns
    /// the pick for the caller to fetch and send; `None` when the window
    /// is fully loaded or no dimension is joined. The loaded set never
    /// leaves the window: every chunk still loaded afterwards lies within
    /// half-side `render_distance / 2 + 2` of the player's chunk.
    pub fn send_chunks(&mut self) -> (r: Option<Vec2i>)
        requires
            old(self).wf(),
        ensures
            final(self).wf(),
            final(self).stage_view() == old(self).stage_view(),
            final(self).uuid_view() == old(self).uuid_view(),
            final(self).username_view() == old(self).username_view(),
            final(self).dimension_view() == old(self).dimension_view(),
            final(self).entity_id_view() == old(self).entity_id_view(),
            final(self).gamemode_view() == old(self).gamemode_view(),
            same_motion(old(self), final(self)),
            same_sync(old(self), final(self)),
            same_inventory(old(self), final(self)),
            same_misc(old(self), final(self)),
            old(self).dimension_view() is None ==> r is None && final(self).loaded_chunks_view()
                == old(self).loaded_chunks_view() && final(self).chunk_position_view() == old(
                self,
            ).chunk_position_view(),
            old(self).dimension_view() is Some ==> {
                let cx = (old(self).block_position_view().x as int) / 16;
                let cz = (old(self).block_position_view().z as int) / 16;
                let h = old(self).render_distance_view() / 2 + 2;
                let pruned = spec_prune(old(self).loaded_chunks_view(), cx, cz, h);
                &&& final(self).chunk_position_view().x as int == cx
                &&& final(self).chunk_position_view().z as int == cz
                &&& match r {
                    Some(p) => {
                        &&& spec_candidate(p, cx, cz, h)
                        &&& !pruned.contains(p)
                        &&& forall|q: Vec2i|
                            spec_candidate(q, cx, cz, h) && !pruned.contains(q) ==> spec_rank(
                                p,
                                cx,
                                cz,
                            ) <= spec_rank(q, cx, cz)
                        &&& forall|q: Vec2i|
                            spec_candidate(q, cx, cz, h) && !pruned.contains(q) && spec_rank(
                                q,
                                cx,
                                cz,
                            ) == spec_rank(p, cx, cz) ==> spec_enum_before(p, q)
                        &&& final(self).loaded_chunks_view() == pruned.push(p)
                    },
                    None => {
                        &&& forall|q: Vec2i|
                            spec_candidate(q, cx, cz, h) ==> pruned.contains(q)
                        &&& final(self).loaded_chunks_view() == pruned
                    },
                }
                &&& forall|i: int|
                    0 <= i < final(self).loaded_chunks_view().len() ==> spec_in_window(
                        #[trigger] final(self).loaded_chunks_view()[i],
                        cx,
                        cz,
                        h,
                    )
            },
    {
        if self.dimension.is_none() {
            return None;
        }
        let cx: i32 = floor_div_16(self.last_block_position.x);
        let cz: i32 = floor_div_16(self.last_block_position.z);
        proof {
            vstd::arithmetic::div_mod::lemma_div_is_ordered(
                -0x8000_0000,
                self.last_block_position.x as int,
                16,
            );
            vstd::arithmetic::div_mod::lemma_div_is_ordered(
                self.last_block_position.x as int,
                0x7fff_ffff,
                16,
            );
            vstd::arithmetic::div_mod::lemma_div_is_ordered(
                -0x8000_0000,
                self.last_block_position.z as int,
                16,
            );
            vstd::arithmetic::div_mod::lemma_div_is_ordered(
                self.last_block_position.z as int,
                0x7fff_ffff,
                16,
            );
        }
        self.last_chunk_position = Vec2i { x: cx, z: cz };
        let h: i32 = ((self.render_distance as u32) / 2 + 2) as i32;
        let ghost old_loaded = old(self).loaded_chunks_view();

        let mut pruned: Vec<Vec2i> = Vec::new();
        let n = self.loaded_chunks.len();
        let mut i: usize = 0;
        while i < n
            invariant
                n == self.loaded_chunks@.len(),
                i <= n,
                -0x800_0000 <= cx <= 0x800_0000,
                -0x800_0000 <= cz <= 0x800_0000,
                2 <= h <= 129,
                pruned@ == spec_prune(
                    self.loaded_chunks@.take(i as int),
                    cx as int,
                    cz as int,
                    h as int,
                ),
            decreases n - i,
        {
            proof {
                assert(self.loaded_chunks@.take((i + 1) as int).drop_last()
                    =~= self.loaded_chunks@.take(i as int));
                assert(self.loaded_chunks@.take((i + 1) as int).last()
                    == self.loaded_chunks@[i as int]);
            }
            let p = self.loaded_chunks[i];
            if p.x >= cx - h && p.x <= cx + h && p.z >= cz - h && p.z <= cz + h {
                pruned.push(p);
            }
            i = i + 1;
        }
        proof {
            assert(self.loaded_chunks@.take(n as int) =~= self.loaded_chunks@);
        }
        self.loaded_chunks = pruned;

        let mut best: Option<(Vec2i, i32)> = None;
        let mut x: i32 = cx - h;
        while x < cx + h
            invariant
                self.wf(),
                cx - h <= x <= cx + h,
                -0x800_0000 <= cx <= 0x800_0000,
                -0x800_0000 <= cz <= 0x800_0000,
                2 <= h <= 129,
                self.loaded_chunks@ == spec_prune(old_loaded, cx as int, cz as int, h as int),
                match best {
                    Some((b, k)) => {
                        &&& spec_candidate(b, cx as int, cz as int, h as int)
                        &&& !self.loaded_chunks@.contains(b)
                        &&& b.x < x
                        &&& k as int == spec_rank(b, cx as int, cz as int)
                        &&& forall|q: Vec2i|
                            spec_candidate(q, cx as int, cz as int, h as int)
                                && !self.loaded_chunks@.contains(q) && q.x < x ==> k as int
                                <= spec_rank(q, cx as int, cz as int)
                        &&& forall|q: Vec2i|
                            spec_candidate(q, cx as int, cz as int, h as int)
                                && !self.loaded_chunks@.contains(q) && q.x < x && spec_rank(
                                q,
                                cx as int,
                                cz as int,
                            ) == k as int ==> spec_enum_before(b, q)
                    },
                    None => forall|q: Vec2i|
                        spec_candidate(q, cx as int, cz as int, h as int) && q.x < x
                            ==> self.loaded_chunks@.contains(q),
                },
            decreases cx + h - x,
        {
            let mut z: i32 = cz - h;
            while z < cz + h
                invariant
                    self.wf(),
                    cx - h <= x < cx + h,
                    cz - h <= z <= cz + h,
                    -0x800_0000 <= cx <= 0x800_0000,
                    -0x800_0000 <= cz <= 0x800_0000,
                    2 <= h <= 129,
                    self.loaded_chunks@ == spec_prune(old_loaded, cx as int, cz as int, h as int),
                    match best {
                        Some((b, k)) => {
                            &&& spec_candidate(b, cx as int, cz as int, h as int)
                            &&& !self.loaded_chunks@.contains(b)
                            &&& (b.x < x || (b.x == x && b.z < z))
                            &&& k as int == spec_rank(b, cx as int, cz as int)
                            &&& forall|q: Vec2i|
                                spec_candidate(q, cx as int, cz as int, h as int)
                                    && !self.loaded_chunks@.contains(q) && (q.x < x || (q.x == x
                                    && q.z < z)) ==> k as int <= spec_rank(q, cx as int, cz as int)
                            &&& forall|q: Vec2i|
                                spec_candidate(q, cx as int, cz as int, h as int)
                                    && !self.loaded_chunks@.contains(q) && (q.x < x || (q.x == x
                                    && q.z < z)) && spec_rank(q, cx as int, cz as int) == k as int
                                    ==> spec_enum_before(b, q)
                        },
                        None => forall|q: Vec2i|
                            spec_candidate(q, cx as int, cz as int, h as int)
                                && (q.x < x || (q.x == x && q.z < z))
                                ==> self.loaded_chunks@.contains(q),
                    },
                decreases cz + h - z,
            {
                let p = Vec2i { x, z };
                if !contains_chunk(&self.loaded_chunks, p) {
                    let dx = x - cx;
                    let dz = z - cz;
                    proof {
                        let dxi = dx as int;
                        let dzi = dz as int;
                        assert(0 <= dxi * dxi <= 16641 && 0 <= dzi * dzi <= 16641)
                            by (nonlinear_arith)
                            requires
                                -129 <= dxi <= 129,
                                -129 <= dzi <= 129,
                        ;
                    }
                    let rank: i32 = dx * dx + dz * dz;
                    match best {
                        None => {
                            best = Some((p, rank));
                        }
                        Some((_, bkey)) => {
                            if rank < bkey {
                                best = Some((p, rank));
                            }
                        }
                    }
                }
                z = z + 1;
            }
            x = x + 1;
        }
        proof {
            lemma_prune_members(old_loaded, cx as int, cz as int, h as int);
        }
        match best {
            Some((p, _)) => {
                self.loaded_chunks.push(p);
                Some(p)
            }
            None => None,
        }
    }
}


} // verus!
