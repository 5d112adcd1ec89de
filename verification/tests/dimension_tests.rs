use std::collections::HashSet;

use wyvern_core::actor::ActorError;
use wyvern_core::blocks::BlockState;
use wyvern_core::dimension::{DimensionData, DimensionEffect, NoopGenerator};
use wyvern_core::registries::{DimensionType, RegistryContainer};
use wyvern_core::server::Server;
use wyvern_core::values::{Id, Vec2f, Vec3d, Vec3i};

fn registries() -> RegistryContainer {
    let mut regs = RegistryContainer::new();
    regs.blocks.insert(Id::constant("minecraft", "air"), ());
    regs.blocks.insert(Id::constant("minecraft", "stone"), ());
    regs.blocks.insert(Id::constant("minecraft", "grass_block"), ());
    regs.dimension_types.insert(
        Id::constant("minecraft", "overworld"),
        DimensionType { min_y: -64, height: 384 },
    );
    regs
}

fn new_server() -> Server {
    let builder = Server::builder();
    builder.build()
}

fn new_dimension() -> DimensionData<NoopGenerator> {
    DimensionData::new(
        Id::constant("wyvern", "root"),
        Id::constant("minecraft", "overworld"),
        NoopGenerator,
    )
}

#[test]
fn block_round_trip_in_dimension() {
    let regs = registries();
    let mut dim = new_dimension();
    let mut effects = Vec::new();
    let grass = BlockState::new(Id::constant("minecraft", "grass_block"));
    dim.set_block(Vec3i::new(0, 10, 0), grass, &regs, &mut effects).unwrap();
    let got = dim.get_block(Vec3i::new(0, 10, 0), &regs, &mut effects).unwrap();
    assert_eq!(got.name().namespace, "minecraft");
    assert_eq!(got.name().path, "grass_block");
    // the write raised a chunk load and a block update, in that order
    assert!(matches!(effects[0], DimensionEffect::ChunkLoad { x: 0, z: 0 }));
    assert!(
        matches!(effects[1], DimensionEffect::BlockUpdate { position, block_id: 2 }
            if position == Vec3i::new(0, 10, 0))
    );
    assert_eq!(effects.len(), 2);
}

#[test]
fn negative_coordinates_round_trip() {
    let regs = registries();
    let mut dim = new_dimension();
    let mut effects = Vec::new();
    let stone = BlockState::new(Id::constant("minecraft", "stone"));
    dim.set_block(Vec3i::new(-1, -64, -17), stone, &regs, &mut effects).unwrap();
    let got = dim.get_block(Vec3i::new(-1, -64, -17), &regs, &mut effects).unwrap();
    assert_eq!(got.name().path, "stone");
    let got = dim.get_block(Vec3i::new(-2, -64, -17), &regs, &mut effects).unwrap();
    assert_eq!(got.name().path, "air");
}

#[test]
fn get_block_outside_bounds_returns_air_without_allocating() {
    let regs = registries();
    let mut dim = new_dimension();
    let mut effects = Vec::new();
    dim.max_chunks(2, 2).unwrap();
    let got = dim.get_block(Vec3i::new(1000, 0, 1000), &regs, &mut effects).unwrap();
    assert_eq!(got.name().path, "air");
    // no chunk was created: no chunk-load effect was raised
    assert!(effects.is_empty());
}

#[test]
fn get_chunk_section_outside_bounds_is_none() {
    let regs = registries();
    let mut dim = new_dimension();
    let mut effects = Vec::new();
    dim.max_chunks(2, 2).unwrap();
    let r = dim.get_chunk_section(Vec3i::new(50, 0, 50), &regs, &mut effects).unwrap();
    assert!(r.is_none());
    let r = dim.get_chunk_section(Vec3i::new(0, 0, 0), &regs, &mut effects).unwrap();
    assert!(r.is_some());
    assert_eq!(r.unwrap().non_air_count(), 0);
}

#[test]
fn unknown_dimension_type_is_bad_request() {
    let regs = RegistryContainer::new();
    let mut dim = new_dimension();
    let mut effects = Vec::new();
    let r = dim.get_block(Vec3i::new(0, 0, 0), &regs, &mut effects);
    assert!(matches!(r, Err(ActorError::BadRequest)));
    let r = dim.get_chunk_section(Vec3i::new(0, 0, 0), &regs, &mut effects);
    assert!(matches!(r, Err(ActorError::BadRequest)));
}

#[test]
fn entity_ids_strictly_increase() {
    let regs = registries();
    let mut server = new_server();
    let mut dim = new_dimension();
    let mut effects = Vec::new();
    let _ = regs;
    let mut last: i32 = 0;
    for _ in 0..100 {
        let uuid = dim.spawn_entity(&mut server, Id::constant("minecraft", "pig"), &mut effects)
            .unwrap();
        let id = dim.entity_id(uuid).unwrap();
        assert!(id > last);
        last = id;
    }
}

#[test]
fn spawned_entities_have_distinct_uuids_and_increasing_ids() {
    // 2^20 spawns: every UUID distinct, every entity id strictly above the last
    let mut server = new_server();
    let mut dim = new_dimension();
    let mut effects = Vec::new();
    let mut seen: HashSet<u128> = HashSet::new();
    let kind = Id::constant("minecraft", "pig");
    let mut last: i32 = 0;
    for _ in 0..(1 << 20) {
        let uuid = dim.spawn_entity(&mut server, kind.clone(), &mut effects).unwrap();
        assert!(seen.insert(uuid));
        let id = dim.entity_id(uuid).unwrap();
        assert!(id > last);
        last = id;
        effects.clear();
    }
    assert_eq!(seen.len(), 1 << 20);
}

#[test]
fn entity_ids_unique_across_dimensions() {
    let mut server = new_server();
    let mut dim_a = new_dimension();
    let mut dim_b = DimensionData::new(
        Id::constant("wyvern", "other"),
        Id::constant("minecraft", "overworld"),
        NoopGenerator,
    );
    let mut effects = Vec::new();
    let kind = Id::constant("minecraft", "pig");
    let mut ids: HashSet<i32> = HashSet::new();
    for _ in 0..50 {
        let u = dim_a.spawn_entity(&mut server, kind.clone(), &mut effects).unwrap();
        assert!(ids.insert(dim_a.entity_id(u).unwrap()));
        let u = dim_b.spawn_entity(&mut server, kind.clone(), &mut effects).unwrap();
        assert!(ids.insert(dim_b.entity_id(u).unwrap()));
    }
    assert_eq!(ids.len(), 100);
}

#[test]
fn teleport_and_rotate_update_the_record() {
    let mut server = new_server();
    let mut dim = new_dimension();
    let mut effects = Vec::new();
    let uuid = dim.spawn_entity(&mut server, Id::constant("minecraft", "pig"), &mut effects)
        .unwrap();
    effects.clear();

    let pos = Vec3d::new(1.5f64.to_bits(), 70.0f64.to_bits(), (-3.25f64).to_bits());
    dim.teleport_entity(uuid, pos, &mut effects).unwrap();
    let heading = Vec2f::new(90.0f32.to_bits(), 45.0f32.to_bits());
    dim.rotate_entity(uuid, heading, &mut effects).unwrap();

    let (p, h) = dim.entity_pos(uuid).unwrap();
    assert_eq!(f64::from_bits(p.x_bits), 1.5);
    assert_eq!(f64::from_bits(p.y_bits), 70.0);
    assert_eq!(f64::from_bits(p.z_bits), -3.25);
    assert_eq!(f32::from_bits(h.x_bits), 90.0);
    assert_eq!(f32::from_bits(h.y_bits), 45.0);

    assert!(matches!(effects[0], DimensionEffect::PositionSync { uuid: u, .. } if u == uuid));
    assert_eq!(effects.len(), 2);
}

#[test]
fn unknown_entity_is_a_bad_request() {
    let mut dim = new_dimension();
    let mut effects = Vec::new();
    assert_eq!(dim.entity_id(42), Err(ActorError::BadRequest));
    assert!(matches!(dim.entity_type(42), Err(ActorError::BadRequest)));
    assert!(matches!(dim.entity_pos(42), Err(ActorError::BadRequest)));
    // moving or turning an unknown entity is rejected too
    assert!(matches!(
        dim.teleport_entity(42, Vec3d::new(0, 0, 0), &mut effects),
        Err(ActorError::BadRequest)
    ));
    assert!(matches!(
        dim.rotate_entity(42, Vec2f::new(0, 0), &mut effects),
        Err(ActorError::BadRequest)
    ));
    assert!(effects.is_empty());
}

#[test]
fn players_and_entities_filters() {
    let mut server = new_server();
    let mut dim = new_dimension();
    let mut effects = Vec::new();
    let pig = dim.spawn_entity(&mut server, Id::constant("minecraft", "pig"), &mut effects)
        .unwrap();
    dim.spawn_player_entity(7, 100, &mut effects).unwrap();

    let players = dim.players().unwrap();
    assert_eq!(players, vec![7]);
    let entities = dim.entities().unwrap();
    assert_eq!(entities, vec![pig]);
    let all = dim.all_entities().unwrap();
    assert_eq!(all, vec![pig, 7]);

    dim.remove_entity(pig, &mut effects).unwrap();
    assert!(dim.entities().unwrap().is_empty());
    assert!(matches!(effects.last().unwrap(), DimensionEffect::RemoveEntity { id: _ }));
}
