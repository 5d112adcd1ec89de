//! The event bus: a type-indexed registry of handler chains. Handlers are
//! registered during server construction and identified by a handle the
//! embedding runtime owns; dispatching an event snapshots the chain for
//! its type, in registration order, for the runtime to schedule.
use vstd::prelude::*;

use crate::blocks::BlockState;
use crate::item::ItemStack;
use crate::values::{Id, Vec2f, Vec2i, Vec3d, Vec3i};

verus! {

/// The event types the core raises.
#[derive(Clone, Copy, PartialEq, Eq, Structural, Debug)]
pub enum EventKind {
    PlayerJoin,
    DimensionCreate,
    ServerTick,
    PlayerMove,
    ChunkLoad,
    PlayerCommand,
    ServerStart,
    PlaceBlock,
    StartBreakBlock,
    StopBreakBlock,
    ChangeHeldSlot,
    SwapHands,
    DropItem,
    BreakBlock,
    ChatMessage,
    RightClick,
    PlayerAttackEntity,
    PlayerAttackPlayer,
    PlayerLeftClick,
    PlayerLoad,
    PlayerRespawn,
}

/// A typed event payload: says which handler chain it dispatches to.
pub trait Event {
    /// The kind, at the specification level.
    spec fn spec_kind(&self) -> EventKind;

    fn kind(&self) -> (k: EventKind)
        ensures
            k == self.spec_kind(),
    ;
}

/// A handler's identity: an index into the handler table the embedding
/// runtime keeps. The bus stores and schedules these; the closures they
/// stand for never enter the verified core.
pub type HandlerId = usize;

/// The handlers registered for one kind, in registration order.
pub open spec fn spec_chain(handlers: Seq<(EventKind, HandlerId)>, kind: EventKind) -> Seq<
    HandlerId,
>
    decreases handlers.len(),
{
    if handlers.len() == 0 {
        Seq::empty()
    } else {
        let front = spec_chain(handlers.drop_last(), kind);
        if handlers.last().0 == kind {
            front.push(handlers.last().1)
        } else {
            front
        }
    }
}

pub struct EventBus {
    handlers: Vec<(EventKind, HandlerId)>,
}

impl EventBus {
    pub closed spec fn view(&self) -> Seq<(EventKind, HandlerId)> {
        self.handlers@
    }

    pub fn new() -> (r: EventBus)
        ensures
            r@ == Seq::<(EventKind, HandlerId)>::empty(),
    {
        EventBus { handlers: Vec::new() }
    }

    /// Register a handler for an event kind, at the back of its chain.
    pub fn add_handler(&mut self, kind: EventKind, handler: HandlerId)
        ensures
            final(self)@ == old(self)@.push((kind, handler)),
    {
        self.handlers.push((kind, handler));
    }

    /// Snapshot the chain for an event kind: exactly the handlers
    /// registered for it, in registration order. The runtime schedules
    /// each on the task pool; their execution order is its affair.
    pub fn dispatch(&self, kind: EventKind) -> (r: Vec<HandlerId>)
        ensures
            r@ == spec_chain(self@, kind),
    {
        let n = self.handlers.len();
        let mut r: Vec<HandlerId> = Vec::new();
        let mut i: usize = 0;
        while i < n
            invariant
                n == self@.len(),
                i <= n,
                r@ == spec_chain(self@.take(i as int), kind),
            decreases n - i,
        {
            proof {
                assert(self@.take((i + 1) as int).drop_last() =~= self@.take(i as int));
                assert(self@.take((i + 1) as int).last() == self@[i as int]);
            }
            let entry = self.handlers[i];
            if entry.0 == kind {
                r.push(entry.1);
            }
            i = i + 1;
        }
        proof {
            assert(self@.take(n as int) =~= self@);
        }
        r
    }
}

pub struct DimensionCreateEvent {
    pub dimension: Id,
}

impl Event for DimensionCreateEvent {
    open spec fn spec_kind(&self) -> EventKind {
        EventKind::DimensionCreate
    }

    fn kind(&self) -> (k: EventKind) {
        EventKind::DimensionCreate
    }
}

pub struct ChunkLoadEvent {
    pub dimension: Id,
    pub pos: Vec2i,
}

impl Event for ChunkLoadEvent {
    open spec fn spec_kind(&self) -> EventKind {
        EventKind::ChunkLoad
    }

    fn kind(&self) -> (k: EventKind) {
        EventKind::ChunkLoad
    }
}

pub struct ServerTickEvent {}

impl Event for ServerTickEvent {
    open spec fn spec_kind(&self) -> EventKind {
        EventKind::ServerTick
    }

    fn kind(&self) -> (k: EventKind) {
        EventKind::ServerTick
    }
}

pub struct PlayerMoveEvent {
    pub player: u128,
    pub new_position: Vec3d,
    pub new_direction: Vec2f,
}

impl Event for PlayerMoveEvent {
    open spec fn spec_kind(&self) -> EventKind {
        EventKind::PlayerMove
    }

    fn kind(&self) -> (k: EventKind) {
        EventKind::PlayerMove
    }
}

pub struct PlayerCommandEvent {
    pub player: u128,
    pub command: String,
}

impl Event for PlayerCommandEvent {
    open spec fn spec_kind(&self) -> EventKind {
        EventKind::PlayerCommand
    }

    fn kind(&self) -> (k: EventKind) {
        EventKind::PlayerCommand
    }
}

pub struct StartBreakBlockEvent {
    pub player: u128,
    pub position: Vec3i,
}

impl Event for StartBreakBlockEvent {
    open spec fn spec_kind(&self) -> EventKind {
        EventKind::StartBreakBlock
    }

    fn kind(&self) -> (k: EventKind) {
        EventKind::StartBreakBlock
    }
}

pub struct StopBreakBlockEvent {
    pub player: u128,
    pub position: Vec3i,
}

impl Event for StopBreakBlockEvent {
    open spec fn spec_kind(&self) -> EventKind {
        EventKind::StopBreakBlock
    }

    fn kind(&self) -> (k: EventKind) {
        EventKind::StopBreakBlock
    }
}

pub struct BreakBlockEvent {
    pub player: u128,
    pub position: Vec3i,
    pub old_block: BlockState,
}

impl Event for BreakBlockEvent {
    open spec fn spec_kind(&self) -> EventKind {
        EventKind::BreakBlock
    }

    fn kind(&self) -> (k: EventKind) {
        EventKind::BreakBlock
    }
}

pub struct PlaceBlockEvent {
    pub player: u128,
    pub position: Vec3i,
    pub block: BlockState,
}

impl Event for PlaceBlockEvent {
    open spec fn spec_kind(&self) -> EventKind {
        EventKind::PlaceBlock
    }

    fn kind(&self) -> (k: EventKind) {
        EventKind::PlaceBlock
    }
}

pub struct DropItemEvent {
    pub player: u128,
    pub item: ItemStack,
}

impl Event for DropItemEvent {
    open spec fn spec_kind(&self) -> EventKind {
        EventKind::DropItem
    }

    fn kind(&self) -> (k: EventKind) {
        EventKind::DropItem
    }
}

pub struct RightClickEvent {
    pub player: u128,
}

impl Event for RightClickEvent {
    open spec fn spec_kind(&self) -> EventKind {
        EventKind::RightClick
    }

    fn kind(&self) -> (k: EventKind) {
        EventKind::RightClick
    }
}

pub struct SwapHandsEvent {
    pub player: u128,
}

impl Event for SwapHandsEvent {
    open spec fn spec_kind(&self) -> EventKind {
        EventKind::SwapHands
    }

    fn kind(&self) -> (k: EventKind) {
        EventKind::SwapHands
    }
}

pub struct ChangeHeldSlotEvent {
    pub player: u128,
    pub slot: i16,
}

impl Event for ChangeHeldSlotEvent {
    open spec fn spec_kind(&self) -> EventKind {
        EventKind::ChangeHeldSlot
    }

    fn kind(&self) -> (k: EventKind) {
        EventKind::ChangeHeldSlot
    }
}

pub struct ServerStartEvent {}

impl Event for ServerStartEvent {
    open spec fn spec_kind(&self) -> EventKind {
        EventKind::ServerStart
    }

    fn kind(&self) -> (k: EventKind) {
        EventKind::ServerStart
    }
}

pub struct ChatMessageEvent {
    pub player: u128,
    pub message: String,
}

impl Event for ChatMessageEvent {
    open spec fn spec_kind(&self) -> EventKind {
        EventKind::ChatMessage
    }

    fn kind(&self) -> (k: EventKind) {
        EventKind::ChatMessage
    }
}

pub struct PlayerJoinEvent {
    pub player: u128,
}

impl Event for PlayerJoinEvent {
    open spec fn spec_kind(&self) -> EventKind {
        EventKind::PlayerJoin
    }

    fn kind(&self) -> (k: EventKind) {
        EventKind::PlayerJoin
    }
}

pub struct PlayerAttackEntityEvent {
    pub attacker: u128,
    pub victim: u128,
}

impl Event for PlayerAttackEntityEvent {
    open spec fn spec_kind(&self) -> EventKind {
        EventKind::PlayerAttackEntity
    }

    fn kind(&self) -> (k: EventKind) {
        EventKind::PlayerAttackEntity
    }
}

pub struct PlayerAttackPlayerEvent {
    pub attacker: u128,
    pub victim: u128,
}

impl Event for PlayerAttackPlayerEvent {
    open spec fn spec_kind(&self) -> EventKind {
        EventKind::PlayerAttackPlayer
    }

    fn kind(&self) -> (k: EventKind) {
        EventKind::PlayerAttackPlayer
    }
}

pub struct PlayerLeftClickEvent {
    pub player: u128,
}

impl Event for PlayerLeftClickEvent {
    open spec fn spec_kind(&self) -> EventKind {
        EventKind::PlayerLeftClick
    }

    fn kind(&self) -> (k: EventKind) {
        EventKind::PlayerLeftClick
    }
}

pub struct PlayerLoadEvent {
    pub player: u128,
}

impl Event for PlayerLoadEvent {
    open spec fn spec_kind(&self) -> EventKind {
        EventKind::PlayerLoad
    }

    fn kind(&self) -> (k: EventKind) {
        EventKind::PlayerLoad
    }
}

pub struct PlayerRespawnEvent {
    pub player: u128,
}

impl Event for PlayerRespawnEvent {
    open spec fn spec_kind(&self) -> EventKind {
        EventKind::PlayerRespawn
    }

    fn kind(&self) -> (k: EventKind) {
        EventKind::PlayerRespawn
    }
}

} // verus!
