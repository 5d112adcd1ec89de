//! The server state machine: the live connections, the frozen registry
//! container, the dimension table, the event bus, and the monotone entity
//! id counter. Entity ids are strictly increasing and never reused.
use vstd::prelude::*;

use crate::actor::{ActorError, ActorResult};
use crate::connection::Stage;
use crate::events::EventBus;
use crate::registries::RegistryContainer;
use crate::values::Id;

verus! {

/// The server's record of one connection: the player's UUID once login
/// assigned one, and the protocol stage the connection has reached.
pub struct ConnectionEntry {
    pub uuid: Option<u128>,
    pub stage: Stage,
}

pub struct Server {
    connections: Vec<ConnectionEntry>,
    registries: RegistryContainer,
    dimensions: Vec<Id>,
    last_entity_id: i32,
    mojauth_enabled: bool,
    default_dimension: Option<Id>,
    events: EventBus,
}

impl Server {
    pub closed spec fn connections_view(&self) -> Seq<ConnectionEntry> {
        self.connections@
    }

    pub closed spec fn dimensions_view(&self) -> Seq<(Seq<char>, Seq<char>)> {
        self.dimensions@.map(|i: int, d: Id| d@)
    }

    pub closed spec fn last_entity_id_view(&self) -> int {
        self.last_entity_id as int
    }

    pub closed spec fn mojauth_view(&self) -> bool {
        self.mojauth_enabled
    }

    pub closed spec fn default_dimension_view(&self) -> Option<(Seq<char>, Seq<char>)> {
        match self.default_dimension {
            Some(d) => Some(d@),
            None => None,
        }
    }

    pub closed spec fn registries_view(&self) -> &RegistryContainer {
        &self.registries
    }

    pub closed spec fn events_view(&self) -> &EventBus {
        &self.events
    }

    /// Well-formedness: registries well-formed, dimension keys unique, and
    /// every play-stage connection has a UUID.
    pub open spec fn wf(&self) -> bool {
        &&& self.registries_view().wf()
        &&& forall|i: int, j: int|
            0 <= i < j < self.dimensions_view().len() ==> self.dimensions_view()[i]
                != self.dimensions_view()[j]
        &&& forall|i: int|
            0 <= i < self.connections_view().len() && (#[trigger] self.connections_view()[i]).stage
                == Stage::Play ==> self.connections_view()[i].uuid is Some
    }

    pub fn builder() -> (r: ServerBuilder)
        ensures
            r.registries.wf(),
            r.registries.dimension_types@.len() == 0,
            r.registries.blocks@.len() == 0,
            r.events@ == Seq::<(crate::events::EventKind, usize)>::empty(),
            r.mojauth_enabled == false,
            r.default_dimension is None,
    {
        ServerBuilder {
            registries: RegistryContainer::new(),
            events: EventBus::new(),
            mojauth_enabled: false,
            default_dimension: None,
        }
    }

    /// The key of the dimension new players join.
    pub fn default_dimension(&self) -> (r: ActorResult<Id>)
        ensures
            match r {
                Ok(d) => self.default_dimension_view() == Some(d@),
                Err(e) => e == ActorError::ActorIsNotLoaded && self.default_dimension_view()
                    is None,
            },
    {
        match &self.default_dimension {
            Some(d) => Ok(d.clone()),
            None => Err(ActorError::ActorIsNotLoaded),
        }
    }

    pub fn set_default_dimension(&mut self, id: Id) -> (r: ActorResult<()>)
        ensures
            r is Ok,
            final(self).default_dimension_view() == Some(id@),
            final(self).connections_view() == old(self).connections_view(),
            final(self).dimensions_view() == old(self).dimensions_view(),
            final(self).last_entity_id_view() == old(self).last_entity_id_view(),
            final(self).registries_view() == old(self).registries_view(),
            final(self).mojauth_view() == old(self).mojauth_view(),
            final(self).events_view()@ == old(self).events_view()@,
    {
        self.default_dimension = Some(id);
        Ok(())
    }

    pub fn mojauth_enabled(&self) -> (r: ActorResult<bool>)
        ensures
            r == Ok::<bool, ActorError>(self.mojauth_view()),
    {
        Ok(self.mojauth_enabled)
    }

    /// Issue a fresh entity id. Ids are strictly increasing across the
    /// server's lifetime: the result is above every id issued before, and
    /// the counter never moves down.
    pub fn new_entity_id(&mut self) -> (r: ActorResult<i32>)
        requires
            old(self).last_entity_id_view() < 0x7fffffff,
        ensures
            final(self).last_entity_id_view() == old(self).last_entity_id_view() + 1,
            r == Ok::<i32, ActorError>((old(self).last_entity_id_view() + 1) as i32),
            final(self).connections_view() == old(self).connections_view(),
            final(self).dimensions_view() == old(self).dimensions_view(),
            final(self).registries_view() == old(self).registries_view(),
            final(self).default_dimension_view() == old(self).default_dimension_view(),
            final(self).mojauth_view() == old(self).mojauth_view(),
            final(self).events_view()@ == old(self).events_view()@,
    {
        self.last_entity_id = self.last_entity_id + 1;
        Ok(self.last_entity_id)
    }

    pub fn registries(&self) -> (r: &RegistryContainer)
        ensures
            r == self.registries_view(),
    {
        &self.registries
    }

    /// The event bus, frozen after construction.
    pub fn event_bus(&self) -> (r: &EventBus)
        ensures
            r == self.events_view(),
    {
        &self.events
    }

    /// Dispatch an event: snapshot the handler chain registered for its
    /// kind, in registration order, for the embedding runtime to submit to
    /// the task pool with the shared payload.
    pub fn spawn_event<E: crate::events::Event>(&self, event: &E) -> (r: ActorResult<
        Vec<crate::events::HandlerId>,
    >)
        ensures
            match r {
                Ok(chain) => chain@ == crate::events::spec_chain(
                    self.events_view()@,
                    event.spec_kind(),
                ),
                Err(_) => false,
            },
    {
        Ok(self.events.dispatch(event.kind()))
    }

    /// Whether the 50 ms tick period has elapsed: the main loop emits the
    /// tick event and sweeps dead connections exactly when it has.
    pub fn tick_due(last_tick_millis: u64, now_millis: u64) -> (r: bool)
        ensures
            r == (now_millis > last_tick_millis && now_millis - last_tick_millis > 50),
    {
        now_millis > last_tick_millis && now_millis - last_tick_millis > 50
    }

    /// Record a new connection.
    pub fn spawn_connection_internal(&mut self, conn: ConnectionEntry) -> (r: ActorResult<()>)
        requires
            old(self).wf(),
            conn.stage == Stage::Play ==> conn.uuid is Some,
        ensures
            r is Ok,
            final(self).wf(),
            final(self).connections_view() == old(self).connections_view().push(conn),
            final(self).dimensions_view() == old(self).dimensions_view(),
            final(self).last_entity_id_view() == old(self).last_entity_id_view(),
            final(self).registries_view() == old(self).registries_view(),
            final(self).default_dimension_view() == old(self).default_dimension_view(),
            final(self).mojauth_view() == old(self).mojauth_view(),
            final(self).events_view()@ == old(self).events_view()@,
    {
        self.connections.push(conn);
        proof {
            lemma_unique_dimensions_transfer(old(self), self);
        }
        Ok(())
    }

    /// The slot of a dimension key; an unknown key is a bad request.
    pub fn dimension(&self, key: &Id) -> (r: ActorResult<usize>)
        ensures
            match r {
                Ok(i) => i < self.dimensions_view().len() && self.dimensions_view()[i as int]
                    == key@,
                Err(e) => e == ActorError::BadRequest && !exists|i: int|
                    0 <= i < self.dimensions_view().len() && self.dimensions_view()[i] == key@,
            },
    {
        let n = self.dimensions.len();
        let mut i: usize = 0;
        while i < n
            invariant
                n == self.dimensions_view().len(),
                i <= n,
                forall|j: int| 0 <= j < i ==> self.dimensions_view()[j] != key@,
            decreases n - i,
        {
            if &self.dimensions[i] == key {
                return Ok(i);
            }
            i = i + 1;
        }
        Err(ActorError::BadRequest)
    }

    /// All dimension keys, in creation order.
    pub fn dimensions(&self) -> (r: ActorResult<Vec<Id>>)
        ensures
            match r {
                Ok(v) => v@.len() == self.dimensions_view().len() && forall|i: int|
                    0 <= i < v@.len() ==> v@[i]@ == self.dimensions_view()[i],
                Err(_) => false,
            },
    {
        let n = self.dimensions.len();
        let mut r: Vec<Id> = Vec::new();
        let mut i: usize = 0;
        while i < n
            invariant
                n == self.dimensions_view().len(),
                i <= n,
                r@.len() == i,
                forall|j: int| 0 <= j < i ==> r@[j]@ == self.dimensions_view()[j],
            decreases n - i,
        {
            r.push(self.dimensions[i].clone());
            i = i + 1;
        }
        Ok(r)
    }

    /// Register a dimension under a fresh key, returning its slot. A key
    /// already in use is rejected: dimension identifiers are unique.
    pub fn create_dimension(&mut self, name: Id) -> (r: ActorResult<usize>)
        requires
            old(self).wf(),
        ensures
            final(self).wf(),
            final(self).connections_view() == old(self).connections_view(),
            final(self).last_entity_id_view() == old(self).last_entity_id_view(),
            final(self).registries_view() == old(self).registries_view(),
            final(self).default_dimension_view() == old(self).default_dimension_view(),
            final(self).mojauth_view() == old(self).mojauth_view(),
            final(self).events_view()@ == old(self).events_view()@,
            match r {
                Ok(i) => {
                    &&& !exists|j: int|
                        0 <= j < old(self).dimensions_view().len() && old(self).dimensions_view()[j]
                            == name@
                    &&& final(self).dimensions_view() == old(self).dimensions_view().push(name@)
                    &&& i == old(self).dimensions_view().len()
                },
                Err(e) => {
                    &&& e == ActorError::BadRequest
                    &&& exists|j: int|
                        0 <= j < old(self).dimensions_view().len() && old(self).dimensions_view()[j]
                            == name@
                    &&& final(self).dimensions_view() == old(self).dimensions_view()
                },
            },
    {
        match self.dimension(&name) {
            Ok(_) => Err(ActorError::BadRequest),
            Err(_) => {
                let i = self.dimensions.len();
                self.dimensions.push(name);
                proof {
                    assert(self.dimensions_view() =~= old(self).dimensions_view().push(
                        self.dimensions@[i as int]@,
                    ));
                }
                Ok(i)
            }
        }
    }

    /// How many connections the server holds.
    pub fn connections(&self) -> (r: ActorResult<usize>)
        ensures
            r == Ok::<usize, ActorError>(self.connections_view().len() as usize),
    {
        Ok(self.connections.len())
    }

    /// The UUIDs of all connections currently in the play stage.
    pub fn players(&self) -> (r: ActorResult<Vec<u128>>)
        requires
            self.wf(),
        ensures
            match r {
                Ok(v) => v@ == spec_players(self.connections_view()),
                Err(_) => false,
            },
    {
        let n = self.connections.len();
        let mut r: Vec<u128> = Vec::new();
        let mut i: usize = 0;
        while i < n
            invariant
                self.wf(),
                n == self.connections_view().len(),
                i <= n,
                r@ == spec_players(self.connections_view().take(i as int)),
            decreases n - i,
        {
            proof {
                assert(self.connections_view().take((i + 1) as int).drop_last()
                    =~= self.connections_view().take(i as int));
                assert(self.connections_view().take((i + 1) as int).last()
                    == self.connections_view()[i as int]);
            }
            let entry = &self.connections[i];
            if entry.stage == Stage::Play {
                match entry.uuid {
                    Some(u) => r.push(u),
                    None => {
                        proof {
                            assert(false);
                        }
                    }
                }
            }
            i = i + 1;
        }
        proof {
            assert(self.connections_view().take(n as int) =~= self.connections_view());
        }
        Ok(r)
    }

    /// The slot of the play-stage connection with this UUID, or
    /// `BadRequest` when no such player is connected.
    pub fn player(&self, player: u128) -> (r: ActorResult<usize>)
        ensures
            match r {
                Ok(i) => {
                    &&& i < self.connections_view().len()
                    &&& self.connections_view()[i as int].uuid == Some(player)
                    &&& self.connections_view()[i as int].stage == Stage::Play
                },
                Err(e) => e == ActorError::BadRequest && !exists|i: int|
                    0 <= i < self.connections_view().len()
                        && self.connections_view()[i].uuid == Some(player)
                        && self.connections_view()[i].stage == Stage::Play,
            },
    {
        let n = self.connections.len();
        let mut i: usize = 0;
        while i < n
            invariant
                n == self.connections_view().len(),
                i <= n,
                forall|j: int|
                    0 <= j < i ==> !(self.connections_view()[j].uuid == Some(player)
                        && self.connections_view()[j].stage == Stage::Play),
            decreases n - i,
        {
            let entry = &self.connections[i];
            let matches_uuid = match entry.uuid {
                Some(u) => u == player,
                None => false,
            };
            if matches_uuid && entry.stage == Stage::Play {
                return Ok(i);
            }
            i = i + 1;
        }
        Err(ActorError::BadRequest)
    }

    /// Drop the connection at a slot: the main loop garbage-collects
    /// terminated connections each tick.
    pub fn remove_connection(&mut self, index: usize) -> (r: ActorResult<()>)
        requires
            old(self).wf(),
        ensures
            final(self).wf(),
            final(self).dimensions_view() == old(self).dimensions_view(),
            final(self).last_entity_id_view() == old(self).last_entity_id_view(),
            final(self).registries_view() == old(self).registries_view(),
            final(self).default_dimension_view() == old(self).default_dimension_view(),
            final(self).mojauth_view() == old(self).mojauth_view(),
            final(self).events_view()@ == old(self).events_view()@,
            match r {
                Ok(()) => index < old(self).connections_view().len()
                    && final(self).connections_view()
                    == old(self).connections_view().remove(index as int),
                Err(e) => e == ActorError::IndexOutOfBounds
                    && index >= old(self).connections_view().len()
                    && final(self).connections_view() == old(self).connections_view(),
            },
    {
        if index < self.connections.len() {
            self.connections.remove(index);
            proof {
                lemma_unique_dimensions_transfer(old(self), self);
                assert forall|i: int|
                    0 <= i < self.connections_view().len() && (#[trigger] self.connections_view()[i]).stage
                        == Stage::Play implies self.connections_view()[i].uuid is Some by {
                    if i < index as int {
                        assert(self.connections_view()[i] == old(self).connections_view()[i]);
                    } else {
                        assert(self.connections_view()[i] == old(self).connections_view()[i + 1]);
                    }
                }
            }
            Ok(())
        } else {
            Err(ActorError::IndexOutOfBounds)
        }
    }
}

/// Dimension-key uniqueness carries over between two server values whose
/// dimension tables are equal.
proof fn lemma_unique_dimensions_transfer(pre: &Server, post: &Server)
    requires
        pre.wf(),
        post.dimensions_view() == pre.dimensions_view(),
    ensures
        forall|i: int, j: int|
            0 <= i < j < post.dimensions_view().len() ==> post.dimensions_view()[i]
                != post.dimensions_view()[j],
{
    assert forall|i: int, j: int|
        0 <= i < j < post.dimensions_view().len() implies post.dimensions_view()[i]
        != post.dimensions_view()[j] by {
        assert(pre.dimensions_view()[i] != pre.dimensions_view()[j]);
    }
}

/// The UUIDs of the play-stage connections, in connection order.
pub open spec fn spec_players(conns: Seq<ConnectionEntry>) -> Seq<u128>
    decreases conns.len(),
{
    if conns.len() == 0 {
        Seq::empty()
    } else {
        let front = spec_players(conns.drop_last());
        if conns.last().stage == Stage::Play && conns.last().uuid is Some {
            front.push(conns.last().uuid.unwrap())
        } else {
            front
        }
    }
}

/// Entity ids are strictly increasing across the server's lifetime: an id
/// is issued at the counter's new value, the counter never decreases, and
/// a later issue returns a value above the counter — so any later id is
/// strictly greater than any earlier one.
pub proof fn lemma_entity_ids_strictly_increase(
    earlier_id: int,
    counter_then: int,
    counter_later: int,
    later_id: int,
)
    requires
        earlier_id <= counter_then,
        counter_then <= counter_later,
        later_id > counter_later,
    ensures
        later_id > earlier_id,
{
}

/// Configures registries and event handlers before the server starts; the
/// bus is frozen once `build` runs.
pub struct ServerBuilder {
    pub registries: RegistryContainer,
    pub events: EventBus,
    pub mojauth_enabled: bool,
    pub default_dimension: Option<Id>,
}

impl ServerBuilder {
    /// Register an event handler on the bus being built.
    pub fn on_event(&mut self, kind: crate::events::EventKind, handler: usize)
        ensures
            final(self).events@ == old(self).events@.push((kind, handler)),
            final(self).registries == old(self).registries,
            final(self).mojauth_enabled == old(self).mojauth_enabled,
            final(self).default_dimension == old(self).default_dimension,
    {
        self.events.add_handler(kind, handler);
    }

    /// Freeze the configuration into a running server's initial state.
    pub fn build(self) -> (r: Server)
        requires
            self.registries.wf(),
        ensures
            r.wf(),
            r.connections_view() == Seq::<ConnectionEntry>::empty(),
            r.dimensions_view() == Seq::<(Seq<char>, Seq<char>)>::empty(),
            r.last_entity_id_view() == 0,
            r.mojauth_view() == self.mojauth_enabled,
            r.events_view()@ == self.events@,
    {
        let r = Server {
            connections: Vec::new(),
            registries: self.registries,
            dimensions: Vec::new(),
            last_entity_id: 0,
            mojauth_enabled: self.mojauth_enabled,
            default_dimension: self.default_dimension,
            events: self.events,
        };
        proof {
            assert(r.dimensions_view() =~= Seq::<(Seq<char>, Seq<char>)>::empty());
        }
        r
    }
}

} // verus!
