use wyvern_core::blocks::BlockState;
use wyvern_core::chunk::Chunk;
use wyvern_core::registry::Registry;
use wyvern_core::values::{Id, Vec3i};

fn block_registry() -> Registry<()> {
    let mut reg: Registry<()> = Registry::new();
    reg.insert(Id::constant("minecraft", "air"), ());
    reg.insert(Id::constant("minecraft", "stone"), ());
    reg.insert(Id::constant("minecraft", "chest"), ());
    reg
}

fn block_entity_registry() -> Registry<u32> {
    let mut reg: Registry<u32> = Registry::new();
    reg.insert(Id::constant("minecraft", "chest"), 1);
    reg
}

#[test]
fn chunk_holds_max_minus_min_sections() {
    let chunk = Chunk::new(-4, 20);
    assert_eq!(chunk.min_section(), -4);
    assert_eq!(chunk.max_section(), 20);
    // the column holds exactly the sections [-4, 20)
    assert!(chunk.section_at(-4).is_some());
    assert!(chunk.section_at(19).is_some());
    assert!(chunk.section_at(-5).is_none());
    assert!(chunk.section_at(20).is_none());
}

#[test]
fn chunk_set_and_get_with_world_y() {
    let blocks = block_registry();
    let bes = block_entity_registry();
    let mut chunk = Chunk::new(-4, 20);
    let stone = BlockState::new(Id::constant("minecraft", "stone"));
    chunk.set_block_at(Vec3i::new(5, -64, 5), &stone, &blocks, &bes).unwrap();
    chunk.set_block_at(Vec3i::new(0, 100, 0), &stone, &blocks, &bes).unwrap();
    let got = chunk.get_block_at(Vec3i::new(5, -64, 5), &blocks).unwrap();
    assert_eq!(got.name().path, "stone");
    let got = chunk.get_block_at(Vec3i::new(0, 100, 0), &blocks).unwrap();
    assert_eq!(got.name().path, "stone");
    // an untouched cell is still air
    let got = chunk.get_block_at(Vec3i::new(1, 100, 0), &blocks).unwrap();
    assert_eq!(got.name().path, "air");
}

#[test]
fn chunk_y_outside_section_range_reads_air() {
    let blocks = block_registry();
    let bes = block_entity_registry();
    let mut chunk = Chunk::new(0, 1);
    let stone = BlockState::new(Id::constant("minecraft", "stone"));
    // a write above the column is ignored
    chunk.set_block_at(Vec3i::new(0, 400, 0), &stone, &blocks, &bes).unwrap();
    let got = chunk.get_block_at(Vec3i::new(0, 400, 0), &blocks).unwrap();
    assert_eq!(got.name().path, "air");
}

#[test]
fn chunk_rejects_column_outside_local_range() {
    let blocks = block_registry();
    let bes = block_entity_registry();
    let mut chunk = Chunk::new(0, 1);
    let stone = BlockState::new(Id::constant("minecraft", "stone"));
    assert!(chunk.set_block_at(Vec3i::new(16, 0, 0), &stone, &blocks, &bes).is_err());
    assert!(chunk.set_block_at(Vec3i::new(0, 0, -1), &stone, &blocks, &bes).is_err());
    assert!(chunk.get_block_at(Vec3i::new(-1, 0, 0), &blocks).is_err());
}

#[test]
fn block_entity_map_follows_block_names() {
    let blocks = block_registry();
    let bes = block_entity_registry();
    let mut chunk = Chunk::new(0, 4);
    let chest = BlockState::new(Id::constant("minecraft", "chest"));
    let stone = BlockState::new(Id::constant("minecraft", "stone"));
    let pos = Vec3i::new(3, 10, 3);

    // a chest has a registered block-entity type: its entry appears
    chunk.set_block_at(pos, &chest, &blocks, &bes).unwrap();
    assert_eq!(chunk.block_entity_type_at(pos), Some(1));

    // overwriting it with a plain block clears the entry
    chunk.set_block_at(pos, &stone, &blocks, &bes).unwrap();
    assert_eq!(chunk.block_entity_type_at(pos), None);

    // the raw-id path keeps the map consistent too
    chunk.set_block_at_by_id(pos, 2, &blocks, &bes).unwrap(); // id 2 = chest
    assert_eq!(chunk.block_entity_type_at(pos), Some(1));
    chunk.set_block_at_by_id(pos, 1, &blocks, &bes).unwrap(); // id 1 = stone
    assert_eq!(chunk.block_entity_type_at(pos), None);
}

#[test]
fn set_block_by_id_rejects_oversized_id() {
    let blocks = block_registry();
    let bes = block_entity_registry();
    let mut chunk = Chunk::new(0, 1);
    assert!(chunk.set_block_at_by_id(Vec3i::new(0, 0, 0), 40000, &blocks, &bes).is_err());
}

#[test]
fn registry_round_trip() {
    let mut reg: Registry<u32> = Registry::new();
    reg.insert(Id::constant("a", "x"), 10);
    reg.insert(Id::constant("a", "y"), 20);
    assert_eq!(reg.len(), 2);
    let i = reg.get_entry(&Id::constant("a", "y")).unwrap();
    assert_eq!(i, 1);
    assert_eq!(reg.key_of(i).unwrap().path, "y");
    assert_eq!(reg.value_of(i).unwrap(), &20);
    assert_eq!(reg.get(&Id::constant("a", "x")).unwrap(), &10);
    assert!(reg.get(&Id::constant("a", "z")).is_none());
    // replacing keeps the index
    reg.insert(Id::constant("a", "x"), 99);
    assert_eq!(reg.len(), 2);
    assert_eq!(reg.get_entry(&Id::constant("a", "x")).unwrap(), 0);
    assert_eq!(reg.get(&Id::constant("a", "x")).unwrap(), &99);
    let keys = reg.keys();
    assert_eq!(keys.len(), 2);
    assert_eq!(keys[0].path, "x");
    assert_eq!(keys[1].path, "y");
}
