use wyvern_core::actor::{ActorError, Mailbox};
use wyvern_core::connection::Stage;
use wyvern_core::events::{Event, EventBus, EventKind, ServerTickEvent};
use wyvern_core::server::{ConnectionEntry, Server};
use wyvern_core::text::TextColor;
use wyvern_core::values::Id;

#[test]
fn entity_id_counter_is_monotone() {
    let mut server = Server::builder().build();
    let mut last: i32 = 0;
    for _ in 0..1000 {
        let id = server.new_entity_id().unwrap();
        assert!(id > last);
        last = id;
    }
}

#[test]
fn dimension_keys_are_unique() {
    let mut server = Server::builder().build();
    let slot = server.create_dimension(Id::constant("wyvern", "root")).unwrap();
    assert_eq!(slot, 0);
    let slot = server.create_dimension(Id::constant("wyvern", "nether")).unwrap();
    assert_eq!(slot, 1);
    // a duplicate key is rejected
    assert!(server.create_dimension(Id::constant("wyvern", "root")).is_err());
    assert_eq!(server.dimension(&Id::constant("wyvern", "nether")).unwrap(), 1);
    // an unknown key is a bad request
    assert_eq!(server.dimension(&Id::constant("wyvern", "end")), Err(ActorError::BadRequest));
    let names = server.dimensions().unwrap();
    assert_eq!(names.len(), 2);
    assert_eq!(names[0].path, "root");
}

#[test]
fn players_filters_by_play_stage() {
    let mut server = Server::builder().build();
    server.spawn_connection_internal(ConnectionEntry { uuid: None, stage: Stage::Login }).unwrap();
    server
        .spawn_connection_internal(ConnectionEntry { uuid: Some(5), stage: Stage::Play })
        .unwrap();
    server
        .spawn_connection_internal(ConnectionEntry { uuid: Some(6), stage: Stage::Configuration })
        .unwrap();
    server.spawn_connection_internal(ConnectionEntry { uuid: Some(8), stage: Stage::Play }).unwrap();

    assert_eq!(server.connections().unwrap(), 4);
    assert_eq!(server.players().unwrap(), vec![5, 8]);
    assert_eq!(server.player(8).unwrap(), 3);
    // a non-play connection is not a player
    assert!(server.player(6).is_err());

    server.remove_connection(3).unwrap();
    assert_eq!(server.players().unwrap(), vec![5]);
}

#[test]
fn default_dimension_round_trip() {
    let mut server = Server::builder().build();
    assert!(server.default_dimension().is_err());
    server.set_default_dimension(Id::constant("wyvern", "root")).unwrap();
    assert_eq!(server.default_dimension().unwrap().path, "root");
    assert!(!server.mojauth_enabled().unwrap());
}

#[test]
fn mailbox_preserves_send_order() {
    let mut mailbox: Mailbox<u32> = Mailbox::new();
    mailbox.push(10);
    mailbox.push(20);
    mailbox.push(30);
    assert_eq!(mailbox.len(), 3);
    let observed = mailbox.drain();
    assert_eq!(observed, vec![10, 20, 30]);
    assert_eq!(mailbox.len(), 0);
    assert!(mailbox.recv().is_none());
}

#[test]
fn event_bus_dispatches_in_registration_order() {
    let mut bus = EventBus::new();
    bus.add_handler(EventKind::ServerTick, 0);
    bus.add_handler(EventKind::PlayerMove, 1);
    bus.add_handler(EventKind::ServerTick, 2);
    bus.add_handler(EventKind::ChatMessage, 3);
    bus.add_handler(EventKind::ServerTick, 4);

    let tick = ServerTickEvent {};
    let chain = bus.dispatch(tick.kind());
    assert_eq!(chain, vec![0, 2, 4]);
    let chain = bus.dispatch(EventKind::PlayerMove);
    assert_eq!(chain, vec![1]);
    let chain = bus.dispatch(EventKind::BreakBlock);
    assert!(chain.is_empty());
}

#[test]
fn builder_registers_handlers() {
    let mut builder = Server::builder();
    builder.on_event(EventKind::ServerStart, 7);
    builder.on_event(EventKind::ServerStart, 8);
    let server = builder.build();
    assert_eq!(server.event_bus().dispatch(EventKind::ServerStart), vec![7, 8]);
}

#[test]
fn text_color_new() {
    let c = TextColor::new(1, 2, 3);
    assert_eq!(c.r, 1);
    assert_eq!(c.g, 2);
    assert_eq!(c.b, 3);
}

#[test]
fn spawn_event_returns_the_chain_for_the_event_kind() {
    let mut builder = Server::builder();
    builder.on_event(EventKind::ServerTick, 1);
    builder.on_event(EventKind::ChatMessage, 2);
    builder.on_event(EventKind::ServerTick, 3);
    let server = builder.build();
    let chain = server.spawn_event(&ServerTickEvent {}).unwrap();
    assert_eq!(chain, vec![1, 3]);
}

#[test]
fn tick_due_after_fifty_millis() {
    assert!(!Server::tick_due(100, 100));
    assert!(!Server::tick_due(100, 150));
    assert!(Server::tick_due(100, 151));
    assert!(!Server::tick_due(100, 50));
}
