use wyvern_core::connection::{
    ConnectionData, ConnectionEffect, Gamemode, PlayPacket, PlayerStatus, Stage,
};
use wyvern_core::item::{ItemCountComponentType, ItemStack};
use wyvern_core::registries::RegistryContainer;
use wyvern_core::values::{Id, Vec2f, Vec2i, Vec3d, Vec3i};

fn registries() -> RegistryContainer {
    let mut regs = RegistryContainer::new();
    regs.blocks.insert(Id::constant("minecraft", "air"), ());
    regs.blocks.insert(Id::constant("minecraft", "stone"), ());
    regs
}

fn play_connection() -> ConnectionData {
    let mut conn = ConnectionData::new(9);
    conn.set_identity(77, String::from("steve"));
    conn.advance_stage(Stage::Login).unwrap();
    conn.advance_stage(Stage::Configuration).unwrap();
    conn.advance_stage(Stage::Play).unwrap();
    conn
}

fn move_packet(x: f64, y: f64, z: f64) -> PlayPacket {
    PlayPacket::MovePlayerPos {
        position: Vec3d::new(x.to_bits(), y.to_bits(), z.to_bits()),
        block_position: Vec3i::new(
            x.floor() as i32,
            y.floor() as i32,
            z.floor() as i32,
        ),
    }
}

#[test]
fn teleport_sync_gates_moves() {
    let regs = registries();
    let mut conn = play_connection();
    let mut effects = Vec::new();

    // server sends teleport id 7; a move before the ack is dropped
    conn.record_teleport_sent(7);
    conn.handle_play_packet(move_packet(1.0, 2.0, 3.0), &regs, &mut effects).unwrap();
    assert!(effects.is_empty());

    // the client acknowledges 7; the next move lands
    conn.handle_play_packet(
        PlayPacket::AcceptTeleportation { teleport_id: 7 },
        &regs,
        &mut effects,
    )
    .unwrap();
    assert!(matches!(effects[0], ConnectionEffect::SendChunks));
    effects.clear();

    conn.handle_play_packet(move_packet(1.0, 2.0, 3.0), &regs, &mut effects).unwrap();
    assert!(matches!(effects[0], ConnectionEffect::SendChunks));
    assert!(
        matches!(effects[1], ConnectionEffect::EmitMove { player: 77, new_position, .. }
            if f64::from_bits(new_position.x_bits) == 1.0
                && f64::from_bits(new_position.y_bits) == 2.0
                && f64::from_bits(new_position.z_bits) == 3.0)
    );
    assert!(matches!(effects[2], ConnectionEffect::UpdateSelfEntity));
    assert_eq!(effects.len(), 3);
}

#[test]
fn creative_dig_breaks_immediately() {
    let regs = registries();
    let mut conn = play_connection();
    conn.set_gamemode(Gamemode::Creative);
    let mut effects = Vec::new();
    let pos = Vec3i::new(5, 64, 5);
    conn.handle_play_packet(
        PlayPacket::PlayerAction { status: PlayerStatus::StartedDigging, position: pos },
        &regs,
        &mut effects,
    )
    .unwrap();
    assert!(
        matches!(effects[0], ConnectionEffect::EmitStartBreak { player: 77, position } if position == pos)
    );
    assert!(matches!(effects[1], ConnectionEffect::SetBlockAir { position } if position == pos));
    assert!(
        matches!(effects[2], ConnectionEffect::EmitBreak { player: 77, position } if position == pos)
    );
    assert_eq!(effects.len(), 3);
}

#[test]
fn survival_dig_breaks_on_finish() {
    let regs = registries();
    let mut conn = play_connection();
    let mut effects = Vec::new();
    let pos = Vec3i::new(1, 2, 3);
    conn.handle_play_packet(
        PlayPacket::PlayerAction { status: PlayerStatus::StartedDigging, position: pos },
        &regs,
        &mut effects,
    )
    .unwrap();
    assert_eq!(effects.len(), 1);
    assert!(matches!(effects[0], ConnectionEffect::EmitStartBreak { .. }));
    effects.clear();
    conn.handle_play_packet(
        PlayPacket::PlayerAction { status: PlayerStatus::FinishedDigging, position: pos },
        &regs,
        &mut effects,
    )
    .unwrap();
    assert!(matches!(effects[0], ConnectionEffect::SetBlockAir { .. }));
    assert!(matches!(effects[1], ConnectionEffect::EmitBreak { .. }));
}

#[test]
fn chunk_streaming_throttles_one_chunk_per_call() {
    let regs = registries();
    let mut conn = play_connection();
    let mut effects = Vec::new();
    conn.handle_play_packet(PlayPacket::ClientInformation { view_distance: 10 }, &regs, &mut effects)
        .unwrap();
    conn.connect_to_new_dimension(Some(Id::constant("wyvern", "root")), &mut effects).unwrap();
    conn.handle_play_packet(move_packet(0.0, 64.0, 0.0), &regs, &mut effects).unwrap();

    // render distance 10 gives a half-side of 10 / 2 + 2 = 7
    let h: i32 = 7;
    let mut streamed: Vec<Vec2i> = Vec::new();
    let mut last_rank: i32 = 0;
    for _ in 0..40 {
        let p = conn.send_chunks().expect("a chunk is streamed while the window has gaps");
        // within the enumeration window
        assert!(p.x >= -h && p.x < h && p.z >= -h && p.z < h);
        // each chunk exactly once
        assert!(!streamed.contains(&p));
        // non-decreasing squared distance from the center
        let rank: i32 = p.x * p.x + p.z * p.z;
        assert!(rank >= last_rank);
        last_rank = rank;
        streamed.push(p);
    }
    assert_eq!(streamed.len(), 40);
    // the very first streamed chunk is the center itself
    assert_eq!(streamed[0], Vec2i::new(0, 0));
}

#[test]
fn send_chunks_without_dimension_is_a_no_op() {
    let mut conn = play_connection();
    assert!(conn.send_chunks().is_none());
}

#[test]
fn drop_item_clears_held_slot() {
    let regs = registries();
    let mut conn = play_connection();
    let mut effects = Vec::new();
    // put something in the default held slot (36)
    let mut stack = ItemStack::new(Id::constant("minecraft", "stone"));
    ItemCountComponentType.insert_component(&mut stack, 5);
    conn.set_inv_slot(36, stack).unwrap();

    conn.handle_play_packet(
        PlayPacket::PlayerAction {
            status: PlayerStatus::DropItem,
            position: Vec3i::new(0, 0, 0),
        },
        &regs,
        &mut effects,
    )
    .unwrap();
    assert!(
        matches!(&effects[0], ConnectionEffect::EmitDrop { player: 77, item }
            if item.kind().path == "stone" && item.count() == 5)
    );
    let slot = conn.get_inv_slot(36).unwrap();
    assert_eq!(slot.count(), 0);
    assert_eq!(slot.kind().path, "air");
}

#[test]
fn use_item_on_places_and_decrements() {
    let regs = registries();
    let mut conn = play_connection();
    let mut effects = Vec::new();
    let mut stack = ItemStack::new(Id::constant("minecraft", "stone"));
    ItemCountComponentType.insert_component(&mut stack, 2);
    conn.set_inv_slot(36, stack).unwrap();

    conn.handle_play_packet(
        PlayPacket::UseItemOn {
            target: Vec3i::new(5, 64, 5),
            face: wyvern_core::connection::BlockFace::Up,
        },
        &regs,
        &mut effects,
    )
    .unwrap();
    let placed = Vec3i::new(5, 65, 5);
    assert!(
        matches!(&effects[0], ConnectionEffect::SetBlock { position, kind }
            if *position == placed && kind.path == "stone")
    );
    assert!(
        matches!(&effects[1], ConnectionEffect::EmitPlace { player: 77, position, kind }
            if *position == placed && kind.path == "stone")
    );
    assert_eq!(conn.get_inv_slot(36).unwrap().count(), 1);

    // placing the last one empties the slot
    effects.clear();
    conn.handle_play_packet(
        PlayPacket::UseItemOn {
            target: Vec3i::new(5, 65, 5),
            face: wyvern_core::connection::BlockFace::Up,
        },
        &regs,
        &mut effects,
    )
    .unwrap();
    assert_eq!(conn.get_inv_slot(36).unwrap().kind().path, "air");
}

#[test]
fn use_unplaceable_item_is_a_right_click() {
    let regs = registries();
    let mut conn = play_connection();
    let mut effects = Vec::new();
    conn.set_inv_slot(36, ItemStack::new(Id::constant("minecraft", "stick"))).unwrap();
    conn.handle_play_packet(
        PlayPacket::UseItemOn {
            target: Vec3i::new(0, 0, 0),
            face: wyvern_core::connection::BlockFace::East,
        },
        &regs,
        &mut effects,
    )
    .unwrap();
    assert!(matches!(effects[0], ConnectionEffect::SetBlock { .. }));
    assert!(matches!(effects[1], ConnectionEffect::EmitRightClick { player: 77 }));
}

#[test]
fn ping_is_answered_with_pong() {
    let regs = registries();
    let mut conn = play_connection();
    let mut effects = Vec::new();
    conn.handle_play_packet(PlayPacket::PingRequest { id: 12345 }, &regs, &mut effects).unwrap();
    assert!(matches!(effects[0], ConnectionEffect::WritePong { id: 12345 }));
}

#[test]
fn carried_slot_change_emits_event() {
    let regs = registries();
    let mut conn = play_connection();
    let mut effects = Vec::new();
    conn.handle_play_packet(PlayPacket::SetCarriedItem { slot: 3 }, &regs, &mut effects).unwrap();
    assert!(matches!(effects[0], ConnectionEffect::EmitHeldSlot { player: 77, slot: 39 }));
}

#[test]
fn container_click_without_screen_applies_directly() {
    let regs = registries();
    let mut conn = play_connection();
    let mut effects = Vec::new();
    let item = ItemStack::new(Id::constant("minecraft", "stone"));
    conn.handle_play_packet(
        PlayPacket::ContainerClick {
            cursor: ItemStack::air(),
            changed_slots: vec![(10, item)],
        },
        &regs,
        &mut effects,
    )
    .unwrap();
    assert_eq!(conn.get_inv_slot(10).unwrap().kind().path, "stone");
    // an out-of-range slot is rejected
    let r = conn.handle_play_packet(
        PlayPacket::ContainerClick {
            cursor: ItemStack::air(),
            changed_slots: vec![(99, ItemStack::air())],
        },
        &regs,
        &mut effects,
    );
    assert!(r.is_err());
}

#[test]
fn join_flow_binds_dimension_or_disconnects() {
    let mut conn = play_connection();
    let mut effects = Vec::new();
    let r = conn.connect_to_new_dimension(None, &mut effects);
    assert!(r.is_err());
    assert!(matches!(effects[0], ConnectionEffect::WriteDisconnect));
    effects.clear();

    conn.connect_to_new_dimension(Some(Id::constant("wyvern", "root")), &mut effects).unwrap();
    assert!(matches!(effects[0], ConnectionEffect::WriteGameEventWaitForChunks));
    assert!(matches!(effects[1], ConnectionEffect::BroadcastOwnPlayerInfo { player: 77 }));
    assert!(matches!(effects[2], ConnectionEffect::SendAllPlayerInfo));
    assert!(matches!(effects[3], ConnectionEffect::SendAllEntities));
    assert!(
        matches!(effects[4], ConnectionEffect::SpawnPlayerEntity { player: 77, entity_id: 9 })
    );
}

#[test]
fn rotation_only_move_keeps_position() {
    let regs = registries();
    let mut conn = play_connection();
    let mut effects = Vec::new();
    conn.handle_play_packet(move_packet(1.0, 2.0, 3.0), &regs, &mut effects).unwrap();
    effects.clear();
    conn.handle_play_packet(
        PlayPacket::MovePlayerRot { direction: Vec2f::new(90.0f32.to_bits(), 0) },
        &regs,
        &mut effects,
    )
    .unwrap();
    assert!(
        matches!(effects[0], ConnectionEffect::EmitMove { new_position, new_direction, .. }
            if f64::from_bits(new_position.x_bits) == 1.0
                && f32::from_bits(new_direction.x_bits) == 90.0)
    );
}

#[test]
fn loaded_chunks_stay_inside_the_window() {
    let regs = registries();
    let mut conn = play_connection();
    let mut effects = Vec::new();
    conn.handle_play_packet(PlayPacket::ClientInformation { view_distance: 10 }, &regs, &mut effects)
        .unwrap();
    conn.connect_to_new_dimension(Some(Id::constant("wyvern", "root")), &mut effects).unwrap();
    conn.handle_play_packet(move_packet(0.0, 64.0, 0.0), &regs, &mut effects).unwrap();
    for _ in 0..20 {
        let _ = conn.send_chunks();
    }
    // the player walks far away; the next streaming step prunes the old
    // window, so everything loaded sits within half-side 7 of the new center
    conn.handle_play_packet(move_packet(1000.0, 64.0, 1000.0), &regs, &mut effects).unwrap();
    let _ = conn.send_chunks();
    let h: i32 = 7;
    for p in conn.loaded_chunk_list() {
        assert!(p.x >= 62 - h && p.x <= 62 + h);
        assert!(p.z >= 62 - h && p.z <= 62 + h);
    }
}


#[test]
fn protocol_stage_machine() {
    let mut conn = ConnectionData::new(1);
    assert_eq!(conn.stage(), Stage::Handshake);
    // handshake cannot jump straight to play
    assert!(conn.advance_stage(Stage::Play).is_err());
    assert_eq!(conn.stage(), Stage::Handshake);
    conn.advance_stage(Stage::Login).unwrap();
    assert!(conn.advance_stage(Stage::Status).is_err());
    conn.advance_stage(Stage::Configuration).unwrap();
    conn.advance_stage(Stage::Play).unwrap();
    // play is terminal
    assert!(conn.advance_stage(Stage::Configuration).is_err());

    // a status query forks the other way and is terminal
    let mut probe = ConnectionData::new(2);
    probe.advance_stage(Stage::Status).unwrap();
    assert!(probe.advance_stage(Stage::Login).is_err());
}

#[test]
fn teleport_ack_above_sent_is_ignored() {
    let regs = registries();
    let mut conn = play_connection();
    let mut effects = Vec::new();
    conn.record_teleport_sent(7);
    // an acknowledgment for an id the server never sent is ignored,
    // so the next move is still gated
    conn.handle_play_packet(
        PlayPacket::AcceptTeleportation { teleport_id: 99 },
        &regs,
        &mut effects,
    )
    .unwrap();
    effects.clear();
    conn.handle_play_packet(move_packet(1.0, 2.0, 3.0), &regs, &mut effects).unwrap();
    assert!(effects.is_empty());
    // the genuine acknowledgment unblocks movement
    conn.handle_play_packet(
        PlayPacket::AcceptTeleportation { teleport_id: 7 },
        &regs,
        &mut effects,
    )
    .unwrap();
    effects.clear();
    conn.handle_play_packet(move_packet(1.0, 2.0, 3.0), &regs, &mut effects).unwrap();
    assert_eq!(effects.len(), 3);
}

#[test]
fn out_of_range_slots_are_index_errors() {
    let regs = registries();
    let mut conn = play_connection();
    let mut effects = Vec::new();
    let r = conn.handle_play_packet(
        PlayPacket::SetCreativeModeSlot { slot: 99, item: ItemStack::air() },
        &regs,
        &mut effects,
    );
    assert_eq!(r, Err(wyvern_core::actor::ActorError::IndexOutOfBounds));
    assert!(effects.is_empty());
}
